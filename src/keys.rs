use vstd::prelude::*;

use unicode_segmentation::UnicodeSegmentation;

verus! {

/// The extended grapheme clusters of a string, in order.
pub uninterp spec fn graphemes_of(s: Seq<char>) -> Seq<Seq<char>>;

/// The characters of each slice of `clusters`.
pub open spec fn views_of(clusters: Seq<&str>) -> Seq<Seq<char>> {
    clusters.map_values(|g: &str| g@)
}

/// Relies on `UnicodeSegmentation::graphemes` with extended clusters: it cuts the
/// string into consecutive non-empty slices, one per grapheme cluster, that together
/// make up the string.
#[verifier::external_body]
fn extended_graphemes<'a>(s: &'a str) -> (r: Vec<&'a str>)
    ensures
        views_of(r@) == graphemes_of(s@),
        views_of(r@).flatten() == s@,
        forall|i: int| 0 <= i < r@.len() ==> (#[trigger] r@[i])@.len() > 0,
{
    s.graphemes(true).collect()
}

/// The number of grapheme clusters in `s`.
pub fn grapheme_count(s: &str) -> (r: usize)
    ensures
        r == graphemes_of(s@).len(),
{
    let clusters = extended_graphemes(s);
    clusters.len()
}

/// The text of `s` without its last grapheme cluster; the empty text stays empty.
pub fn remove_last_grapheme(s: &str) -> (r: String)
    ensures
        r@ == without_last_cluster(graphemes_of(s@)),
{
    let clusters = extended_graphemes(s);
    join_all_but_last(&clusters)
}

/// All clusters but the last one, joined; nothing when there is no cluster.
pub open spec fn without_last_cluster(clusters: Seq<Seq<char>>) -> Seq<char> {
    if clusters.len() == 0 {
        Seq::empty()
    } else {
        clusters.drop_last().flatten()
    }
}

/// Joins every cluster of `clusters` but the last one.
pub fn join_all_but_last(clusters: &Vec<&str>) -> (r: String)
    ensures
        r@ == without_last_cluster(views_of(clusters@)),
{
    let mut text = String::new();
    if clusters.len() == 0 {
        return text;
    }
    let ghost g = views_of(clusters@);
    let n: usize = clusters.len() - 1;
    let mut i: usize = 0;
    while i < n
        invariant
            n + 1 == clusters@.len(),
            g == views_of(clusters@),
            i <= n,
            text@ == g.subrange(0, i as int).flatten(),
        decreases n - i,
    {
        proof {
            assert(g.subrange(0, i + 1) =~= g.subrange(0, i as int).push(g[i as int]));
            g.subrange(0, i as int).lemma_flatten_push(g[i as int]);
        }
        text.append(clusters[i]);
        i = i + 1;
    }
    assert(g.subrange(0, n as int) =~= g.drop_last());
    text
}

/// What a key token asks of an edit field.
#[derive(Clone, Copy, Debug, PartialEq, Eq, Structural)]
pub enum KeyAction {
    /// Append the token to the text.
    Insert,
    /// Remove the last grapheme cluster of the text.
    Backspace,
    /// Leave the active state.
    Deactivate,
    /// A named key without meaning to the field.
    Ignore,
}

/// Tokens of fewer than three grapheme clusters are text; longer ones name a key.
pub open spec fn spec_classify_key(key: Seq<char>, clusters: int) -> KeyAction {
    if clusters < 3 {
        KeyAction::Insert
    } else if key == "Backspace"@ {
        KeyAction::Backspace
    } else if key == "Escape"@ || key == "Enter"@ {
        KeyAction::Deactivate
    } else {
        KeyAction::Ignore
    }
}

fn same_text(a: &str, b: &str) -> (r: bool)
    ensures
        r == (a@ == b@),
{
    a.to_owned() == b.to_owned()
}

/// Classifies `key`, a token of `clusters` grapheme clusters.
pub fn classify_key(key: &str, clusters: usize) -> (r: KeyAction)
    ensures
        r == spec_classify_key(key@, clusters as int),
{
    if clusters < 3 {
        KeyAction::Insert
    } else if same_text(key, "Backspace") {
        KeyAction::Backspace
    } else if same_text(key, "Escape") || same_text(key, "Enter") {
        KeyAction::Deactivate
    } else {
        KeyAction::Ignore
    }
}

} // verus!
