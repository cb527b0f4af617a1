//! Grapheme clusters and whole texts: assembling them from bytes or text,
//! walking them, and rendering them.

use smallvec::SmallVec;
use vstd::prelude::*;
use vstd::string::StringExecFns;
use crate::codepoint::{Codepoint, classify, classify_unit, lemma_classify_value};
use crate::decode::{
    Chunk, byte_units, chunk_units, decode_chunks, decode_units, lemma_decode_units_bytes,
    lemma_runs_flatten, lemma_runs_nonempty, runs, text_units, units_bytes,
};
use crate::render::{CodepointModel, codepoint_form, grapheme_form, joined, text_form, text_items};
use crate::strings::push_char;

verus! {

/// The inline-first vector that holds a cluster's codepoints: most clusters
/// are a single codepoint, which it keeps without allocating.
#[verifier::external_body]
#[derive(Debug, PartialEq, Eq, PartialOrd, Hash)]
pub struct CodepointVec(SmallVec<[Codepoint; 1]>);

/// The codepoints a cluster's vector holds, in order.
pub uninterp spec fn small_items(v: CodepointVec) -> Seq<Codepoint>;

/// How the extended grapheme cluster rules of UAX #29 cut a text.
pub uninterp spec fn grapheme_clusters(s: Seq<char>) -> Seq<Seq<char>>;

/// Relies on SmallVec::from_vec: it holds the vector's items, in order.
#[verifier::external_body]
fn small_from_vec(v: Vec<Codepoint>) -> (r: CodepointVec)
    ensures
        small_items(r) == v@,
{
    CodepointVec(SmallVec::from_vec(v))
}

/// Relies on SmallVec::as_slice: the items, in order.
#[verifier::external_body]
fn small_as_slice(v: &CodepointVec) -> (r: &[Codepoint])
    ensures
        r@ == small_items(*v),
{
    v.0.as_slice()
}

/// Relies on SmallVec::into_vec: the items, in order.
#[verifier::external_body]
fn small_into_vec(v: CodepointVec) -> (r: Vec<Codepoint>)
    ensures
        r@ == small_items(v),
{
    v.0.into_vec()
}

/// Relies on unicode-segmentation's UnicodeSegmentation::graphemes with
/// extended clusters: consecutive non-empty slices that together make up the
/// text, cut where the rules of UAX #29 put a boundary.
#[verifier::external_body]
fn split_graphemes(s: &str) -> (r: Vec<&str>)
    ensures
        r@.map_values(|g: &str| g@) == grapheme_clusters(s@),
        r@.map_values(|g: &str| g@).flatten() == s@,
        forall|i: int| 0 <= i < r@.len() ==> r@[i]@.len() > 0,
{
    unicode_segmentation::UnicodeSegmentation::graphemes(s, true).collect()
}

/// The classification of each scalar value of a valid text.
pub open spec fn classify_text(s: Seq<char>) -> Seq<CodepointModel> {
    Seq::new(s.len(), |i: int| classify(s[i]))
}

/// Each piece of text classified.
pub open spec fn classify_each(css: Seq<Seq<char>>) -> Seq<Seq<CodepointModel>> {
    Seq::new(css.len(), |i: int| classify_text(css[i]))
}

/// The clusters of a valid text, each classified.
pub open spec fn classify_clusters(s: Seq<char>) -> Seq<Seq<CodepointModel>> {
    classify_each(grapheme_clusters(s))
}

/// The decoded values or undecodable bytes of a list of codepoints.
pub open spec fn codepoint_values(ms: Seq<CodepointModel>) -> Seq<Result<char, u8>> {
    Seq::new(ms.len(), |i: int| ms[i].value())
}

proof fn lemma_classify_each_flatten(css: Seq<Seq<char>>)
    ensures
        classify_each(css).flatten() == classify_text(css.flatten()),
    decreases css.len(),
{
    if css.len() > 0 {
        lemma_classify_each_flatten(css.drop_first());
        assert(classify_each(css).drop_first() =~= classify_each(css.drop_first()));
        assert(classify_text(css.flatten()) =~= classify_text(css[0]) + classify_text(
            css.drop_first().flatten(),
        ));
    } else {
        assert(classify_text(css.flatten()) =~= seq![]);
    }
}

proof fn lemma_classify_text_values(s: Seq<char>)
    ensures
        codepoint_values(classify_text(s)) == text_units(s),
{
    assert forall|i: int| 0 <= i < s.len() implies #[trigger] classify_text(s)[i].value() == Ok::<
        char,
        u8,
    >(s[i]) by {
        lemma_classify_value(s[i]);
    }
    assert(codepoint_values(classify_text(s)) =~= text_units(s));
}

proof fn lemma_invalid_clusters_values(b: Seq<u8>)
    ensures
        codepoint_values(invalid_clusters(b).flatten()) == byte_units(b),
    decreases b.len(),
{
    if b.len() > 0 {
        lemma_invalid_clusters_values(b.drop_last());
        assert(invalid_clusters(b) =~= invalid_clusters(b.drop_last()).push(
            seq![CodepointModel::Invalid(b.last())],
        ));
        let prev = invalid_clusters(b.drop_last()).flatten();
        let one = seq![CodepointModel::Invalid(b.last())];
        invalid_clusters(b.drop_last()).lemma_flatten_push(one);
        assert(codepoint_values(prev + one) =~= codepoint_values(prev) + seq![
            Err::<char, u8>(b.last()),
        ]);
        assert(byte_units(b) =~= byte_units(b.drop_last()).push(Err::<char, u8>(b.last())));
    } else {
        assert(invalid_clusters(b).flatten() =~= seq![]);
        assert(codepoint_values(invalid_clusters(b).flatten()) =~= byte_units(b));
    }
}

/// One singleton cluster per undecodable byte.
pub open spec fn invalid_clusters(b: Seq<u8>) -> Seq<Seq<CodepointModel>> {
    Seq::new(b.len(), |i: int| seq![CodepointModel::Invalid(b[i])])
}

/// The scalar values of a run of decoded units.
pub open spec fn run_text(run: Seq<Result<char, u8>>) -> Seq<char> {
    Seq::new(run.len(), |i: int| run[i]->Ok_0)
}

/// The bytes of a run of undecodable units.
pub open spec fn run_bytes(run: Seq<Result<char, u8>>) -> Seq<u8> {
    Seq::new(run.len(), |i: int| run[i]->Err_0)
}

/// The clusters of one run: the cluster rules applied to decoded text, one
/// cluster per undecodable byte.
pub open spec fn run_clusters(run: Seq<Result<char, u8>>) -> Seq<Seq<CodepointModel>> {
    if run.len() > 0 && run[0] is Ok {
        classify_clusters(run_text(run))
    } else {
        invalid_clusters(run_bytes(run))
    }
}

/// What parsing makes of a byte sequence: its maximal runs, each cut into
/// clusters, in order.
pub open spec fn parse_model(bytes: Seq<u8>) -> Seq<Seq<CodepointModel>> {
    let rs = runs(decode_units(bytes));
    Seq::new(rs.len(), |i: int| run_clusters(rs[i])).flatten()
}

pub open spec fn grapheme_views(gs: Seq<Grapheme>) -> Seq<Seq<CodepointModel>> {
    Seq::new(gs.len(), |i: int| gs[i]@)
}

pub open spec fn codepoint_views(cs: Seq<Codepoint>) -> Seq<CodepointModel> {
    Seq::new(cs.len(), |i: int| cs[i]@)
}

proof fn lemma_codepoint_views_push(cs: Seq<Codepoint>, c: Codepoint)
    ensures
        codepoint_views(cs.push(c)) == codepoint_views(cs).push(c@),
{
    assert(codepoint_views(cs.push(c)) =~= codepoint_views(cs).push(c@));
}

proof fn lemma_grapheme_views_push(gs: Seq<Grapheme>, g: Grapheme)
    ensures
        grapheme_views(gs.push(g)) == grapheme_views(gs).push(g@),
{
    assert(grapheme_views(gs.push(g)) =~= grapheme_views(gs).push(g@));
}

/// One user-perceived character: the codepoints of a grapheme cluster, or a
/// single undecodable byte.
#[derive(Debug, PartialEq, Eq, PartialOrd, Hash)]
pub struct Grapheme(CodepointVec);

impl View for Grapheme {
    type V = Seq<CodepointModel>;

    closed spec fn view(&self) -> Seq<CodepointModel> {
        codepoint_views(small_items(self.0))
    }
}

impl Clone for Grapheme {
    fn clone(&self) -> (r: Grapheme)
        ensures
            r@ == self@,
    {
        let cps = self.codepoints();
        let mut copy: Vec<Codepoint> = Vec::new();
        let mut j: usize = 0;
        while j < cps.len()
            invariant
                j <= cps@.len(),
                codepoint_views(copy@) == codepoint_views(cps@).take(j as int),
            decreases cps@.len() - j,
        {
            let ghost before = copy@;
            copy.push(cps[j].clone());
            proof {
                lemma_codepoint_views_push(before, copy@.last());
                assert(codepoint_views(cps@).take(j + 1) =~= codepoint_views(cps@).take(
                    j as int,
                ).push(cps@[j as int]@));
            }
            j = j + 1;
        }
        assert(codepoint_views(cps@).take(j as int) =~= codepoint_views(cps@));
        Grapheme(small_from_vec(copy))
    }
}

impl Grapheme {
    /// Classifies each scalar value of a cluster of valid text.
    pub fn from_valid(s: &str) -> (r: Grapheme)
        ensures
            r@ == classify_text(s@),
    {
        let mut cps: Vec<Codepoint> = Vec::new();
        for c in it: s.chars()
            invariant
                it.seq() == s@,
                codepoint_views(cps@) == classify_text(s@.take(it.index() as int)),
        {
            let ghost i = it.index() as int;
            let ghost before = cps@;
            cps.push(Codepoint::from_valid(c));
            proof {
                lemma_codepoint_views_push(before, cps@.last());
                assert(classify_text(s@.take(i + 1)) =~= classify_text(s@.take(i)).push(
                    classify(s@[i]),
                ));
            }
        }
        assert(s@.take(s@.len() as int) =~= s@);
        Grapheme(small_from_vec(cps))
    }

    /// A cluster made of one undecodable byte.
    pub fn from_invalid(byte: u8) -> (r: Grapheme)
        ensures
            r@ == seq![CodepointModel::Invalid(byte)],
    {
        let mut cps: Vec<Codepoint> = Vec::new();
        cps.push(Codepoint::from_invalid(byte));
        let r = Grapheme(small_from_vec(cps));
        assert(r@ =~= seq![CodepointModel::Invalid(byte)]);
        r
    }

    /// The codepoints, in order.
    pub fn codepoints(&self) -> (r: &[Codepoint])
        ensures
            codepoint_views(r@) == self@,
    {
        small_as_slice(&self.0)
    }

    /// The codepoints, in order, taken out of the cluster.
    pub fn into_codepoints(self) -> (r: Vec<Codepoint>)
        ensures
            codepoint_views(r@) == self@,
    {
        small_into_vec(self.0)
    }

    /// A lone codepoint as itself; several as `[a + b + ...]`.
    pub fn to_string(&self) -> (r: String)
        ensures
            r@ == grapheme_form(self@),
    {
        let cps = self.codepoints();
        if cps.len() == 1 {
            return cps[0].to_string();
        }
        let ghost parts = self@.map_values(|m: CodepointModel| codepoint_form(m));
        let sep = " + ";
        proof {
            reveal_strlit(" + ");
        }
        let mut out = String::new();
        push_char(&mut out, '[');
        let mut j: usize = 0;
        while j < cps.len()
            invariant
                j <= cps@.len(),
                codepoint_views(cps@) == self@,
                parts == self@.map_values(|m: CodepointModel| codepoint_form(m)),
                sep@ == seq![' ', '+', ' '],
                out@ == seq!['['] + joined(parts.take(j as int), seq![' ', '+', ' ']),
            decreases cps@.len() - j,
        {
            if j > 0 {
                out.append(sep);
            }
            let item = cps[j].to_string();
            out.append(item.as_str());
            proof {
                assert(parts.take(j + 1).drop_last() =~= parts.take(j as int));
                if j == 0 {
                    assert(joined(parts.take(1), seq![' ', '+', ' ']) == parts[0]);
                }
            }
            j = j + 1;
            assert(out@ =~= seq!['['] + joined(parts.take(j as int), seq![' ', '+', ' ']));
        }
        push_char(&mut out, ']');
        assert(parts.take(cps@.len() as int) =~= parts);
        assert(out@ =~= grapheme_form(self@));
        out
    }
}

/// Appends the classified clusters of a valid text.
fn push_clusters(out: &mut Vec<Grapheme>, s: &str)
    ensures
        grapheme_views(final(out)@) == grapheme_views(old(out)@) + classify_clusters(s@),
        codepoint_values(classify_clusters(s@).flatten()) == text_units(s@),
        forall|i: int|
            0 <= i < classify_clusters(s@).len() ==> #[trigger] classify_clusters(s@)[i].len() > 0,
{
    let gs = split_graphemes(s);
    proof {
        lemma_classify_each_flatten(grapheme_clusters(s@));
        lemma_classify_text_values(s@);
        assert forall|i: int| 0 <= i < classify_clusters(s@).len() implies
            #[trigger] classify_clusters(s@)[i].len() > 0 by {
            assert(gs@.map_values(|g: &str| g@)[i] == gs@[i]@);
        }
    }
    let ghost base = grapheme_views(out@);
    let mut k: usize = 0;
    while k < gs.len()
        invariant
            k <= gs@.len(),
            gs@.map_values(|g: &str| g@) == grapheme_clusters(s@),
            grapheme_views(out@) == base + classify_clusters(s@).take(k as int),
        decreases gs@.len() - k,
    {
        let ghost before = out@;
        out.push(Grapheme::from_valid(gs[k]));
        proof {
            lemma_grapheme_views_push(before, out@.last());
            assert(gs@.map_values(|g: &str| g@)[k as int] == gs@[k as int]@);
            assert(classify_clusters(s@).take(k + 1) =~= classify_clusters(s@).take(k as int).push(
                classify_text(gs@[k as int]@),
            ));
        }
        k = k + 1;
    }
    assert(classify_clusters(s@).take(k as int) =~= classify_clusters(s@));
}

/// Appends one singleton cluster per byte.
fn push_invalid(out: &mut Vec<Grapheme>, bytes: &Vec<u8>)
    ensures
        grapheme_views(final(out)@) == grapheme_views(old(out)@) + invalid_clusters(bytes@),
{
    let ghost base = grapheme_views(out@);
    let mut k: usize = 0;
    while k < bytes.len()
        invariant
            k <= bytes@.len(),
            grapheme_views(out@) == base + invalid_clusters(bytes@).take(k as int),
        decreases bytes@.len() - k,
    {
        let ghost before = out@;
        out.push(Grapheme::from_invalid(bytes[k]));
        proof {
            lemma_grapheme_views_push(before, out@.last());
            assert(invalid_clusters(bytes@).take(k + 1) =~= invalid_clusters(bytes@).take(
                k as int,
            ).push(seq![CodepointModel::Invalid(bytes@[k as int])]));
        }
        k = k + 1;
    }
    assert(invalid_clusters(bytes@).take(k as int) =~= invalid_clusters(bytes@));
}

/// The input, decoded and assembled: an ordered list of grapheme clusters.
#[derive(Debug, Clone, PartialEq, Eq, PartialOrd, Hash, Default)]
pub struct Text(Vec<Grapheme>);

impl View for Text {
    type V = Seq<Seq<CodepointModel>>;

    closed spec fn view(&self) -> Seq<Seq<CodepointModel>> {
        grapheme_views(self.0@)
    }
}

pub open spec fn ref_views(cs: Seq<&Codepoint>) -> Seq<CodepointModel> {
    Seq::new(cs.len(), |i: int| cs[i]@)
}

/// Appends references to each codepoint of a slice.
fn push_refs<'a>(out: &mut Vec<&'a Codepoint>, cps: &'a [Codepoint])
    ensures
        ref_views(final(out)@) == ref_views(old(out)@) + codepoint_views(cps@),
{
    let ghost base = ref_views(out@);
    let mut j: usize = 0;
    while j < cps.len()
        invariant
            j <= cps@.len(),
            ref_views(out@) == base + codepoint_views(cps@).take(j as int),
        decreases cps@.len() - j,
    {
        let ghost before = out@;
        out.push(&cps[j]);
        proof {
            assert(ref_views(out@) =~= ref_views(before).push(cps@[j as int]@));
            assert(codepoint_views(cps@).take(j + 1) =~= codepoint_views(cps@).take(j as int).push(
                cps@[j as int]@,
            ));
        }
        j = j + 1;
    }
    assert(codepoint_views(cps@).take(j as int) =~= codepoint_views(cps@));
}

impl Text {
    /// Assembles valid text: cut into grapheme clusters, each scalar value
    /// classified.
    pub fn parse_str(text: &str) -> (r: Text)
        ensures
            r@ == classify_clusters(text@),
            codepoint_values(r@.flatten()) == text_units(text@),
            forall|i: int| 0 <= i < r@.len() ==> #[trigger] r@[i].len() > 0,
    {
        let mut gs: Vec<Grapheme> = Vec::new();
        assert(grapheme_views(gs@) =~= seq![]);
        push_clusters(&mut gs, text);
        assert(grapheme_views(gs@) =~= classify_clusters(text@));
        Text(gs)
    }

    /// Assembles arbitrary bytes: maximal runs of valid UTF-8 are cut into
    /// grapheme clusters, and every byte that cannot be decoded becomes a
    /// cluster of its own. The codepoints, in order, are the input's decoded
    /// values and undecodable bytes, none left out or repeated.
    pub fn parse_bytes(bytes: &[u8]) -> (r: Text)
        ensures
            r@ == parse_model(bytes@),
            codepoint_values(r@.flatten()) == decode_units(bytes@),
            units_bytes(codepoint_values(r@.flatten())) == bytes@,
            forall|i: int| 0 <= i < r@.len() ==> #[trigger] r@[i].len() > 0,
    {
        proof {
            lemma_decode_units_bytes(bytes@);
        }
        let chunks = decode_chunks(bytes);
        let ghost rs = runs(decode_units(bytes@));
        proof {
            lemma_runs_nonempty(decode_units(bytes@));
        }
        let mut gs: Vec<Grapheme> = Vec::new();
        let mut k: usize = 0;
        assert(grapheme_views(gs@) =~= Seq::new(0, |i: int| run_clusters(rs[i])).flatten());
        assert(codepoint_values(grapheme_views(gs@).flatten()) =~= rs.take(0).flatten());
        while k < chunks.len()
            invariant
                k <= chunks@.len(),
                chunk_units(chunks@) == rs,
                forall|i: int| 0 <= i < rs.len() ==> #[trigger] rs[i].len() > 0,
                grapheme_views(gs@) == Seq::new(k as nat, |i: int| run_clusters(rs[i])).flatten(),
                codepoint_values(grapheme_views(gs@).flatten()) == rs.take(k as int).flatten(),
                forall|i: int|
                    0 <= i < grapheme_views(gs@).len() ==> #[trigger] grapheme_views(gs@)[i].len()
                        > 0,
            decreases chunks@.len() - k,
        {
            let ghost before = grapheme_views(gs@);
            let ghost run = rs[k as int];
            assert(run == chunks@[k as int].units());
            match &chunks[k] {
                Chunk::Valid(s) => {
                    push_clusters(&mut gs, s.as_str());
                    proof {
                        assert(run_text(run) =~= s@);
                    }
                },
                Chunk::Invalid(b) => {
                    push_invalid(&mut gs, b);
                    proof {
                        assert(run_bytes(run) =~= b@);
                        assert forall|i: int| 0 <= i < invalid_clusters(b@).len() implies
                            #[trigger] invalid_clusters(b@)[i].len() > 0 by {}
                        lemma_invalid_clusters_values(b@);
                    }
                },
            }
            proof {
                let f = |i: int| run_clusters(rs[i]);
                assert(Seq::new((k + 1) as nat, f) =~= Seq::new(k as nat, f).push(
                    run_clusters(run),
                ));
                Seq::new(k as nat, f).lemma_flatten_push(run_clusters(run));
                vstd::seq_lib::lemma_flatten_concat(before, run_clusters(run));
                assert(codepoint_values(run_clusters(run).flatten()) == run);
                assert forall|i: int| 0 <= i < grapheme_views(gs@).len() implies
                    #[trigger] grapheme_views(gs@)[i].len() > 0 by {
                    if i >= before.len() {
                        assert(grapheme_views(gs@)[i] == run_clusters(run)[i - before.len()]);
                    }
                }
                assert(codepoint_values(grapheme_views(gs@).flatten()) =~= codepoint_values(
                    before.flatten(),
                ) + run);
                assert(rs.take(k + 1) =~= rs.take(k as int).push(run));
                rs.take(k as int).lemma_flatten_push(run);
            }
            k = k + 1;
        }
        proof {
            lemma_runs_flatten(decode_units(bytes@));
            assert(rs.take(k as int) =~= rs);
            assert(Seq::new(k as nat, |i: int| run_clusters(rs[i])) =~= Seq::new(
                rs.len(),
                |i: int| run_clusters(rs[i]),
            ));
        }
        Text(gs)
    }

    /// The clusters, in order.
    pub fn graphemes(&self) -> (r: &[Grapheme])
        ensures
            grapheme_views(r@) == self@,
    {
        self.0.as_slice()
    }

    /// The clusters, in order, taken out of the text.
    pub fn into_graphemes(self) -> (r: Vec<Grapheme>)
        ensures
            grapheme_views(r@) == self@,
    {
        self.0
    }

    /// Every codepoint of every cluster, in order.
    pub fn codepoints(&self) -> (r: Vec<&Codepoint>)
        ensures
            ref_views(r@) == self@.flatten(),
    {
        let mut out: Vec<&Codepoint> = Vec::new();
        let ghost t = self@;
        let mut k: usize = 0;
        assert(ref_views(out@) =~= t.take(0).flatten());
        while k < self.0.len()
            invariant
                k <= self.0@.len(),
                t == self@,
                t == grapheme_views(self.0@),
                ref_views(out@) == t.take(k as int).flatten(),
            decreases self.0@.len() - k,
        {
            push_refs(&mut out, self.0[k].codepoints());
            proof {
                assert(t.take(k + 1) =~= t.take(k as int).push(t[k as int]));
                t.take(k as int).lemma_flatten_push(t[k as int]);
            }
            k = k + 1;
        }
        assert(t.take(k as int) =~= t);
        out
    }

    /// Every codepoint of every cluster, in order, taken out of the text.
    pub fn into_codepoints(self) -> (r: Vec<Codepoint>)
        ensures
            codepoint_views(r@) == self@.flatten(),
    {
        let ghost t = self@;
        let mut out: Vec<Codepoint> = Vec::new();
        assert(codepoint_views(out@) =~= t.take(0).flatten());
        for g in it: self.0.into_iter()
            invariant
                it.seq() == self.0@,
                t == grapheme_views(self.0@),
                codepoint_views(out@) == t.take(it.index() as int).flatten(),
        {
            let ghost k = it.index() as int;
            let ghost before = out@;
            let mut cps = g.into_codepoints();
            out.append(&mut cps);
            proof {
                assert(codepoint_views(out@) =~= codepoint_views(before) + t[k]);
                assert(t.take(k + 1) =~= t.take(k).push(t[k]));
                t.take(k).lemma_flatten_push(t[k]);
            }
        }
        assert(t.take(t.len() as int) =~= t);
        out
    }

    /// A text as `[g1, g2, ...]`, each cluster in its own rendering; empty
    /// clusters are left out.
    pub fn to_string(&self) -> (r: String)
        ensures
            r@ == text_form(self@),
    {
        let ghost t = self@;
        let sep = ", ";
        proof {
            reveal_strlit(", ");
        }
        let mut out = String::new();
        push_char(&mut out, '[');
        let mut first = true;
        let mut k: usize = 0;
        assert(t.take(0) =~= seq![]);
        while k < self.0.len()
            invariant
                k <= self.0@.len(),
                t == grapheme_views(self.0@),
                sep@ == seq![',', ' '],
                first == (text_items(t.take(k as int)).len() == 0),
                out@ == seq!['['] + joined(text_items(t.take(k as int)), seq![',', ' ']),
            decreases self.0@.len() - k,
        {
            let g = &self.0[k];
            let ghost items = text_items(t.take(k as int));
            proof {
                assert(t.take(k + 1).drop_last() =~= t.take(k as int));
                assert(t.take(k + 1).last() == t[k as int]);
                assert(t[k as int] == g@);
            }
            if g.codepoints().len() > 0 {
                if !first {
                    out.append(sep);
                }
                let item = g.to_string();
                out.append(item.as_str());
                first = false;
                proof {
                    let pushed = items.push(grapheme_form(g@));
                    assert(pushed.drop_last() =~= items);
                    assert(text_items(t.take(k + 1)) == pushed);
                    if items.len() == 0 {
                        assert(joined(pushed, seq![',', ' ']) == pushed[0]);
                    }
                    assert(out@ =~= seq!['['] + joined(pushed, seq![',', ' ']));
                }
            }
            k = k + 1;
        }
        push_char(&mut out, ']');
        assert(t.take(k as int) =~= t);
        assert(out@ =~= text_form(t));
        out
    }
}

} // verus!
