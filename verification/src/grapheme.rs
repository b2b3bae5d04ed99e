//! Grapheme clusters: what a reader takes for one character. The editor
//! counts, cuts and joins text by them; `unicode_segmentation` finds them.

use vstd::prelude::*;
use unicode_segmentation::UnicodeSegmentation;
use vstd::string::*;
use vstd::seq_lib::lemma_flatten_concat;
use crate::text::{lemma_texts_push, texts};

verus! {

/// The extended grapheme clusters of `s`, in order, as
/// `unicode_segmentation` finds them.
pub uninterp spec fn grapheme_clusters(s: Seq<char>) -> Seq<Seq<char>>;

/// `UnicodeSegmentation::graphemes` with extended clusters, each cluster as
/// a `String`. The contract gives the result its name,
/// [`grapheme_clusters`], and states of it what the iterator's source shows:
/// the clusters are consecutive slices that cover the whole text, none of
/// them empty.
#[verifier::external_body]
pub(crate) fn graphemes(s: &str) -> (out: Vec<String>)
    ensures
        texts(out@) == grapheme_clusters(s@),
        texts(out@).flatten() == s@,
        forall|i: int| 0 <= i < out.len() ==> (#[trigger] out[i])@.len() > 0,
{
    s.graphemes(true).map(String::from).collect()
}

/// Whether none of the clusters is empty.
pub open spec fn all_nonempty(clusters: Seq<Seq<char>>) -> bool {
    forall|i: int| 0 <= i < clusters.len() ==> (#[trigger] clusters[i]).len() > 0
}

/// A text has at least as many characters as it has clusters, when none of
/// them is empty.
pub proof fn lemma_count_within_length(clusters: Seq<Seq<char>>)
    requires
        all_nonempty(clusters),
    ensures
        clusters.len() <= clusters.flatten().len(),
    decreases clusters.len(),
{
    if clusters.len() > 0 {
        assert forall|i: int| 0 <= i < clusters.drop_first().len() implies (
        #[trigger] clusters.drop_first()[i]).len() > 0 by {
            assert(clusters.drop_first()[i] == clusters[i + 1]);
        }
        lemma_count_within_length(clusters.drop_first());
    }
}

/// Cutting a list of clusters in two cuts its text in two.
pub proof fn lemma_flatten_cut(clusters: Seq<Seq<char>>, at: int)
    requires
        0 <= at <= clusters.len(),
    ensures
        clusters.flatten() == clusters.subrange(0, at).flatten() + clusters.subrange(
            at,
            clusters.len() as int,
        ).flatten(),
{
    lemma_flatten_concat(clusters.subrange(0, at), clusters.subrange(at, clusters.len() as int));
    assert(clusters.subrange(0, at) + clusters.subrange(at, clusters.len() as int) =~= clusters);
}

/// The clusters of `s`, each as a string.
pub fn clusters_of(s: &str) -> (out: Vec<String>)
    ensures
        texts(out@) == grapheme_clusters(s@),
        texts(out@).flatten() == s@,
        all_nonempty(texts(out@)),
        out.len() <= s@.len(),
{
    let out = graphemes(s);
    proof {
        assert forall|i: int| 0 <= i < texts(out@).len() implies (#[trigger] texts(out@)[i]).len()
            > 0 by {
            assert(out[i]@.len() > 0);
        }
        lemma_count_within_length(texts(out@));
    }
    out
}

/// The text of the clusters `clusters[from..to]`, joined.
pub fn join(clusters: &Vec<String>, from: usize, to: usize) -> (out: String)
    requires
        from <= to <= clusters.len(),
    ensures
        out@ == texts(clusters@).subrange(from as int, to as int).flatten(),
{
    let mut out = String::new();
    let mut i: usize = from;
    assert(texts(clusters@).subrange(from as int, from as int) =~= Seq::<Seq<char>>::empty());
    while i < to
        invariant
            from <= i <= to <= clusters.len(),
            out@ == texts(clusters@).subrange(from as int, i as int).flatten(),
        decreases to - i,
    {
        proof {
            let done = texts(clusters@).subrange(from as int, i as int);
            done.lemma_flatten_push(clusters@[i as int]@);
            assert(done.push(clusters@[i as int]@) =~= texts(clusters@).subrange(
                from as int,
                i + 1,
            ));
        }
        out.append(clusters[i].as_str());
        i += 1;
    }
    out
}

} // verus!
