use vstd::prelude::*;

verus! {

/// Namespace under which previews are stored.
pub open spec fn preview_namespace() -> Seq<char> {
    seq!['t', 'h', 'u', 'm', 'b', 'n', 'a', 'i', 'l', '/']
}

/// Extension (with its dot) of the preview's encoding.
pub open spec fn preview_extension() -> Seq<char> {
    seq!['.', 'j', 'p', 'e', 'g']
}

/// The part of a key before its first `.`; the whole key when it has none.
pub open spec fn base_name(s: Seq<char>) -> Seq<char>
    decreases s.len(),
{
    if s.len() == 0 {
        s
    } else if s[0] == '.' {
        Seq::empty()
    } else {
        seq![s[0]] + base_name(s.drop_first())
    }
}

/// Destination key of the preview made from the object at `source`.
pub open spec fn derived_key(source: Seq<char>) -> Seq<char> {
    preview_namespace() + base_name(source) + preview_extension()
}

proof fn lemma_base_name_is_prefix(s: Seq<char>, i: int)
    requires
        0 <= i <= s.len(),
        forall|j: int| 0 <= j < i ==> s[j] != '.',
        i == s.len() || s[i] == '.',
    ensures
        base_name(s) =~= s.take(i),
    decreases s.len(),
{
    if s.len() > 0 && s[0] != '.' {
        lemma_base_name_is_prefix(s.drop_first(), i - 1);
        assert(s.take(i) =~= seq![s[0]] + s.drop_first().take(i - 1));
    }
}

/// Destination key of the preview: `thumbnail/` + the source key up to its
/// first `.` + `.jpeg`. A key without a `.` is taken whole.
pub fn derive_key(source_key: &str) -> (r: String)
    ensures
        r@ == derived_key(source_key@),
{
    let n = source_key.unicode_len();
    let mut i: usize = 0;
    while i < n && source_key.get_char(i) != '.'
        invariant
            n == source_key@.len(),
            i <= n,
            forall|j: int| 0 <= j < i ==> source_key@[j] != '.',
        decreases n - i,
    {
        i = i + 1;
    }
    proof {
        lemma_base_name_is_prefix(source_key@, i as int);
        reveal_strlit("thumbnail/");
        reveal_strlit(".jpeg");
    }
    let base = source_key.substring_char(0, i);
    let mut r = String::from_str("thumbnail/");
    r.append(base);
    r.append(".jpeg");
    assert(r@ =~= derived_key(source_key@));
    r
}

} // verus!
