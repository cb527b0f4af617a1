//! Splits raw bytes into maximal runs of valid UTF-8 text and of bytes that
//! cannot be decoded.

use vstd::prelude::*;
use vstd::utf8::*;
use crate::strings::{char_from_u32, push_char};

verus! {

broadcast use vstd::utf8::group_utf8_lib;

/// The input read unit by unit: at each position the scalar value whose
/// UTF-8 encoding starts there, or else the byte itself as undecodable.
pub open spec fn decode_units(bytes: Seq<u8>) -> Seq<Result<char, u8>>
    decreases bytes.len(),
{
    if bytes.len() == 0 {
        seq![]
    } else if valid_first_scalar(bytes) {
        seq![Ok(decode_first_scalar(bytes) as char)] + decode_units(pop_first_scalar(bytes))
    } else {
        seq![Err(bytes[0])] + decode_units(bytes.drop_first())
    }
}

/// The bytes a unit stands for.
pub open spec fn unit_bytes(u: Result<char, u8>) -> Seq<u8> {
    match u {
        Ok(c) => encode_scalar(c as u32),
        Err(b) => seq![b],
    }
}

/// The bytes a list of units stands for, in order.
pub open spec fn units_bytes(us: Seq<Result<char, u8>>) -> Seq<u8> {
    Seq::new(us.len(), |i: int| unit_bytes(us[i])).flatten()
}

/// Decoding reads every byte exactly once and in order: the bytes the units
/// stand for are the input.
pub proof fn lemma_decode_units_bytes(bytes: Seq<u8>)
    ensures
        units_bytes(decode_units(bytes)) == bytes,
    decreases bytes.len(),
{
    let us = decode_units(bytes);
    if bytes.len() > 0 {
        let rest;
        let first_bytes;
        if valid_first_scalar(bytes) {
            rest = pop_first_scalar(bytes);
            let t = take_first_scalar(bytes);
            let n = length_of_first_scalar(bytes);
            assert(t.len() == n);
            assert(forall|i: int| 0 <= i < n ==> t[i] == bytes[i]);
            assert(decode_first_codepoint(t) == decode_first_codepoint(bytes));
            assert(valid_first_scalar(t));
            assert(pop_first_scalar(t) =~= seq![]);
            assert(valid_utf8(pop_first_scalar(t)));
            assert(valid_utf8(t));
            decode_utf8_first_scalar(t);
            assert(take_first_scalar(t) =~= t);
            first_bytes = t;
            assert(t + rest =~= bytes);
        } else {
            rest = bytes.drop_first();
            first_bytes = seq![bytes[0]];
            assert(first_bytes + rest =~= bytes);
        }
        lemma_decode_units_bytes(rest);
        let parts = Seq::new(us.len(), |i: int| unit_bytes(us[i]));
        assert(parts.drop_first() =~= Seq::new(
            decode_units(rest).len(),
            |i: int| unit_bytes(decode_units(rest)[i]),
        ));
        assert(parts.first() == first_bytes);
    } else {
        assert(Seq::new(us.len(), |i: int| unit_bytes(us[i])) =~= seq![]);
    }
}

/// Whether two units are both decoded or both undecodable.
pub open spec fn same_kind(a: Result<char, u8>, b: Result<char, u8>) -> bool {
    a is Ok == b is Ok
}

/// The units cut into maximal runs of the same kind.
pub open spec fn runs(us: Seq<Result<char, u8>>) -> Seq<Seq<Result<char, u8>>>
    decreases us.len(),
{
    if us.len() == 0 {
        seq![]
    } else {
        let r = runs(us.drop_last());
        if r.len() > 0 && same_kind(r.last().last(), us.last()) {
            r.drop_last().push(r.last().push(us.last()))
        } else {
            r.push(seq![us.last()])
        }
    }
}

/// Every run holds at least one unit.
pub proof fn lemma_runs_nonempty(us: Seq<Result<char, u8>>)
    ensures
        forall|i: int| 0 <= i < runs(us).len() ==> #[trigger] runs(us)[i].len() > 0,
    decreases us.len(),
{
    if us.len() > 0 {
        lemma_runs_nonempty(us.drop_last());
        lemma_runs_push(us.drop_last(), us.last());
        assert(us.drop_last().push(us.last()) =~= us);
    }
}

/// Each run holds units of one kind, and neighbouring runs are of different
/// kinds: the runs are maximal.
pub proof fn lemma_runs_maximal(us: Seq<Result<char, u8>>)
    ensures
        forall|i: int, j: int|
            0 <= i < runs(us).len() && 0 <= j < runs(us)[i].len() ==> same_kind(
                #[trigger] runs(us)[i][j],
                runs(us)[i][0],
            ),
        forall|i: int|
            0 <= i < runs(us).len() - 1 ==> !same_kind(
                #[trigger] runs(us)[i].last(),
                runs(us)[i + 1][0],
            ),
    decreases us.len(),
{
    if us.len() > 0 {
        let r = runs(us.drop_last());
        let u = us.last();
        lemma_runs_maximal(us.drop_last());
        lemma_runs_nonempty(us.drop_last());
        lemma_runs_push(us.drop_last(), u);
        assert(us.drop_last().push(u) =~= us);
        let rs = runs(us);
        if r.len() > 0 && same_kind(r.last().last(), u) {
            let k = r.len() - 1;
            assert(same_kind(r[k][r[k].len() - 1], r[k][0]));
            assert forall|i: int, j: int|
                0 <= i < rs.len() && 0 <= j < rs[i].len() implies same_kind(
                #[trigger] rs[i][j],
                rs[i][0],
            ) by {
                if i < k {
                    assert(rs[i] == r[i]);
                }
            }
            assert forall|i: int| 0 <= i < rs.len() - 1 implies !same_kind(
                #[trigger] rs[i].last(),
                rs[i + 1][0],
            ) by {
                assert(rs[i] == r[i]);
                assert(rs[i + 1][0] == r[i + 1][0]);
            }
        } else {
            assert forall|i: int, j: int|
                0 <= i < rs.len() && 0 <= j < rs[i].len() implies same_kind(
                #[trigger] rs[i][j],
                rs[i][0],
            ) by {
                if i < r.len() {
                    assert(rs[i] == r[i]);
                }
            }
            assert forall|i: int| 0 <= i < rs.len() - 1 implies !same_kind(
                #[trigger] rs[i].last(),
                rs[i + 1][0],
            ) by {
                assert(rs[i] == r[i]);
                if i + 1 < r.len() {
                    assert(rs[i + 1] == r[i + 1]);
                }
            }
        }
    }
}

/// The runs, put back together, are the units they were cut from.
pub proof fn lemma_runs_flatten(us: Seq<Result<char, u8>>)
    ensures
        runs(us).flatten() == us,
    decreases us.len(),
{
    if us.len() > 0 {
        let r = runs(us.drop_last());
        let u = us.last();
        lemma_runs_flatten(us.drop_last());
        lemma_runs_nonempty(us.drop_last());
        if r.len() > 0 && same_kind(r.last().last(), u) {
            r.drop_last().lemma_flatten_push(r.last());
            assert(r.drop_last().push(r.last()) =~= r);
            r.drop_last().lemma_flatten_push(r.last().push(u));
        } else {
            r.lemma_flatten_push(seq![u]);
        }
        assert(us.drop_last().push(u) =~= us);
    }
}

/// A maximal run of the input: valid text, or bytes that cannot be decoded.
pub enum Chunk {
    Valid(String),
    Invalid(Vec<u8>),
}

/// Text as decoded units.
pub open spec fn text_units(s: Seq<char>) -> Seq<Result<char, u8>> {
    Seq::new(s.len(), |i: int| Ok(s[i]))
}

/// Bytes as undecodable units.
pub open spec fn byte_units(b: Seq<u8>) -> Seq<Result<char, u8>> {
    Seq::new(b.len(), |i: int| Err(b[i]))
}

impl Chunk {
    /// The units the run is made of.
    pub open spec fn units(&self) -> Seq<Result<char, u8>> {
        match self {
            Chunk::Valid(s) => text_units(s@),
            Chunk::Invalid(b) => byte_units(b@),
        }
    }
}

pub open spec fn chunk_units(cs: Seq<Chunk>) -> Seq<Seq<Result<char, u8>>> {
    cs.map_values(|ch: Chunk| ch.units())
}

/// The run still being gathered, as a list of at most one run.
spec fn open_run(text: Seq<char>, junk: Seq<u8>) -> Seq<Seq<Result<char, u8>>> {
    if text.len() > 0 {
        seq![text_units(text)]
    } else if junk.len() > 0 {
        seq![byte_units(junk)]
    } else {
        seq![]
    }
}

/// `runs` taken one unit further.
proof fn lemma_runs_push(us: Seq<Result<char, u8>>, u: Result<char, u8>)
    ensures
        ({
            let r = runs(us);
            runs(us.push(u)) == if r.len() > 0 && same_kind(r.last().last(), u) {
                r.drop_last().push(r.last().push(u))
            } else {
                r.push(seq![u])
            }
        }),
{
    assert(us.push(u).drop_last() =~= us);
    assert(us.push(u).last() == u);
}

/// The scalar value whose UTF-8 encoding starts at `bytes[i]`, with the
/// length of that encoding.
fn scalar_at(bytes: &[u8], i: usize) -> (r: Option<(char, usize)>)
    requires
        i < bytes@.len(),
    ensures
        match r {
            Some((c, n)) => {
                &&& valid_first_scalar(bytes@.skip(i as int))
                &&& c == decode_first_scalar(bytes@.skip(i as int)) as char
                &&& n == length_of_first_scalar(bytes@.skip(i as int))
            },
            None => !valid_first_scalar(bytes@.skip(i as int)),
        },
{
    let ghost s = bytes@.skip(i as int);
    let rest = bytes.len() - i;
    let b0 = bytes[i];
    let v: u32;
    let n: usize;
    if b0 <= 0x7F {
        v = (b0 & 0x7F) as u32;
        n = 1;
        assert(v <= 0x7F) by (bit_vector)
            requires
                v == (b0 & 0x7F) as u32,
        ;
    } else if 0xC0 <= b0 && b0 <= 0xDF {
        if rest < 2 || !(0x80 <= bytes[i + 1] && bytes[i + 1] <= 0xBF) {
            return None;
        }
        let b1 = bytes[i + 1];
        v = ((b0 & 0x1F) as u32) << 6 | (b1 & 0x3F) as u32;
        n = 2;
        assert(v <= 0x7FF) by (bit_vector)
            requires
                v == ((b0 & 0x1F) as u32) << 6 | (b1 & 0x3F) as u32,
        ;
    } else if 0xE0 <= b0 && b0 <= 0xEF {
        if rest < 3 || !(0x80 <= bytes[i + 1] && bytes[i + 1] <= 0xBF) || !(0x80 <= bytes[i + 2]
            && bytes[i + 2] <= 0xBF) {
            return None;
        }
        let b1 = bytes[i + 1];
        let b2 = bytes[i + 2];
        v = ((b0 & 0x0F) as u32) << 12 | ((b1 & 0x3F) as u32) << 6 | (b2 & 0x3F) as u32;
        n = 3;
        assert(v <= 0xFFFF) by (bit_vector)
            requires
                v == ((b0 & 0x0F) as u32) << 12 | ((b1 & 0x3F) as u32) << 6 | (b2 & 0x3F) as u32,
        ;
    } else if 0xF0 <= b0 && b0 <= 0xF7 {
        if rest < 4 || !(0x80 <= bytes[i + 1] && bytes[i + 1] <= 0xBF) || !(0x80 <= bytes[i + 2]
            && bytes[i + 2] <= 0xBF) || !(0x80 <= bytes[i + 3] && bytes[i + 3] <= 0xBF) {
            return None;
        }
        let b1 = bytes[i + 1];
        let b2 = bytes[i + 2];
        let b3 = bytes[i + 3];
        v = ((b0 & 0x07) as u32) << 18 | ((b1 & 0x3F) as u32) << 12 | ((b2 & 0x3F) as u32) << 6
            | (b3 & 0x3F) as u32;
        n = 4;
    } else {
        return None;
    }
    assert(v == decode_first_codepoint(s) && n == length_of_first_codepoint(s));
    if (n == 2 && v < 0x80) || (n == 3 && v < 0x800) || (n == 4 && (v < 0x10000 || v > 0x10FFFF))
        || (0xD800 <= v && v <= 0xDFFF) {
        return None;
    }
    match char_from_u32(v) {
        Some(c) => {
            proof {
                char_u32_cast(c, v);
            }
            Some((c, n))
        },
        None => None,
    }
}

/// Splits bytes into maximal runs of valid text and of undecodable bytes, in
/// order, covering every byte once.
pub fn decode_chunks(bytes: &[u8]) -> (r: Vec<Chunk>)
    ensures
        chunk_units(r@) == runs(decode_units(bytes@)),
        chunk_units(r@).flatten() == decode_units(bytes@),
        forall|i: int| 0 <= i < r@.len() ==> #[trigger] r@[i].units().len() > 0,
        forall|i: int|
            0 <= i < r@.len() - 1 ==> (#[trigger] r@[i] is Valid) != (r@[i + 1] is Valid),
{
    let mut chunks: Vec<Chunk> = Vec::new();
    let mut text = String::new();
    let mut has_text = false;
    let mut junk: Vec<u8> = Vec::new();
    let ghost mut done: Seq<Result<char, u8>> = seq![];
    let mut i: usize = 0;
    assert(bytes@.skip(0) =~= bytes@);
    assert(done + decode_units(bytes@) =~= decode_units(bytes@));
    while i < bytes.len()
        invariant
            i <= bytes@.len(),
            done + decode_units(bytes@.skip(i as int)) == decode_units(bytes@),
            has_text == (text@.len() > 0),
            text@.len() == 0 || junk@.len() == 0,
            done.len() == 0 ==> chunks@.len() == 0 && text@.len() == 0 && junk@.len() == 0,
            done.len() > 0 ==> text@.len() > 0 || junk@.len() > 0,
            chunk_units(chunks@) + open_run(text@, junk@) == runs(done),
        decreases bytes@.len() - i,
    {
        let ghost s = bytes@.skip(i as int);
        match scalar_at(bytes, i) {
            Some((c, n)) => {
                let ghost old_chunks = chunks@;
                let ghost old_text = text@;
                let ghost old_junk = junk@;
                if junk.len() > 0 {
                    chunks.push(Chunk::Invalid(junk));
                    junk = Vec::new();
                }
                push_char(&mut text, c);
                has_text = true;
                proof {
                    let u: Result<char, u8> = Ok(c);
                    lemma_runs_push(done, u);
                    assert(text_units(text@) =~= text_units(old_text).push(u));
                    if old_text.len() == 0 {
                        assert(text_units(text@) =~= seq![u]);
                    }
                    if old_junk.len() > 0 {
                        assert(chunk_units(chunks@) =~= chunk_units(old_chunks).push(
                            byte_units(old_junk),
                        ));
                        assert(chunk_units(chunks@) + open_run(text@, junk@) =~= chunk_units(
                            old_chunks,
                        ) + open_run(old_text, old_junk) + seq![seq![u]]);
                    } else if old_text.len() > 0 {
                        assert(chunk_units(chunks@) + open_run(text@, junk@) =~= (chunk_units(
                            old_chunks,
                        ) + open_run(old_text, old_junk)).drop_last().push(
                            text_units(old_text).push(u),
                        ));
                    } else {
                        assert(chunk_units(chunks@) + open_run(text@, junk@) =~= seq![seq![u]]);
                    }
                    assert(pop_first_scalar(s) =~= bytes@.skip(i + n));
                    assert(done.push(Ok(c)) + decode_units(bytes@.skip(i + n)) =~= done
                        + decode_units(s));
                    done = done.push(Ok(c));
                }
                i = i + n;
            },
            None => {
                let ghost old_chunks = chunks@;
                let ghost old_text = text@;
                let ghost old_junk = junk@;
                if has_text {
                    chunks.push(Chunk::Valid(text));
                    text = String::new();
                    has_text = false;
                }
                junk.push(bytes[i]);
                proof {
                    let u: Result<char, u8> = Err(bytes@[i as int]);
                    lemma_runs_push(done, u);
                    assert(byte_units(junk@) =~= byte_units(old_junk).push(u));
                    if old_junk.len() == 0 {
                        assert(byte_units(junk@) =~= seq![u]);
                    }
                    if old_text.len() > 0 {
                        assert(chunk_units(chunks@) =~= chunk_units(old_chunks).push(
                            text_units(old_text),
                        ));
                        assert(chunk_units(chunks@) + open_run(text@, junk@) =~= chunk_units(
                            old_chunks,
                        ) + open_run(old_text, old_junk) + seq![seq![u]]);
                    } else if old_junk.len() > 0 {
                        assert(chunk_units(chunks@) + open_run(text@, junk@) =~= (chunk_units(
                            old_chunks,
                        ) + open_run(old_text, old_junk)).drop_last().push(
                            byte_units(old_junk).push(u),
                        ));
                    } else {
                        assert(chunk_units(chunks@) + open_run(text@, junk@) =~= seq![seq![u]]);
                    }
                    assert(s.drop_first() =~= bytes@.skip(i + 1));
                    assert(done.push(Err(bytes@[i as int])) + decode_units(bytes@.skip(i + 1))
                        =~= done + decode_units(s));
                    done = done.push(Err(bytes@[i as int]));
                }
                i = i + 1;
            },
        }
    }
    let ghost old_chunks = chunks@;
    let ghost old_text = text@;
    let ghost old_junk = junk@;
    if has_text {
        chunks.push(Chunk::Valid(text));
    } else if junk.len() > 0 {
        chunks.push(Chunk::Invalid(junk));
    }
    proof {
        assert(bytes@.skip(i as int) =~= seq![]);
        assert(done + decode_units(bytes@.skip(i as int)) =~= done);
        assert(chunk_units(chunks@) =~= chunk_units(old_chunks) + open_run(old_text, old_junk));
        let us = decode_units(bytes@);
        lemma_runs_flatten(us);
        lemma_runs_nonempty(us);
        lemma_runs_maximal(us);
        assert forall|i: int| 0 <= i < chunks@.len() implies #[trigger] chunks@[i].units().len()
            > 0 by {
            assert(chunk_units(chunks@)[i] == chunks@[i].units());
        }
        assert forall|i: int| 0 <= i < chunks@.len() - 1 implies (#[trigger] chunks@[i] is Valid)
            != (chunks@[i + 1] is Valid) by {
            let a = chunks@[i].units();
            let b = chunks@[i + 1].units();
            assert(chunk_units(chunks@)[i] == a);
            assert(chunk_units(chunks@)[i + 1] == b);
            assert(!same_kind(a.last(), b[0]));
        }
    }
    chunks
}

} // verus!
