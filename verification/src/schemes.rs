//! The registered service schemes as one sorted, newline-separated text.
use vstd::prelude::*;
use vstd::string::StringSliceAdditionalSpecFns;
use vstd::utf8::encode_utf8;

use crate::bridge::{buffer_stored, handle_or_record_error, insert_buffer, Bridge};
use crate::resources::Resource;
use crate::service::{default_registry, init_registry, registry_schemes};
use crate::text::{append_bytes, copy_bytes};

verus! {

/// Byte-wise lexicographic order (a prefix comes first).
pub open spec fn lex_le(a: Seq<u8>, b: Seq<u8>) -> bool
    decreases a.len(),
{
    if a.len() == 0 {
        true
    } else if b.len() == 0 {
        false
    } else if a[0] != b[0] {
        a[0] < b[0]
    } else {
        lex_le(a.drop_first(), b.drop_first())
    }
}

/// Any two texts are ordered one way or the other.
pub proof fn lemma_lex_total(a: Seq<u8>, b: Seq<u8>)
    ensures
        lex_le(a, b) || lex_le(b, a),
    decreases a.len(),
{
    if a.len() > 0 && b.len() > 0 && a[0] == b[0] {
        lemma_lex_total(a.drop_first(), b.drop_first());
    }
}

/// The order is transitive.
pub proof fn lemma_lex_transitive(a: Seq<u8>, b: Seq<u8>, c: Seq<u8>)
    requires
        lex_le(a, b),
        lex_le(b, c),
    ensures
        lex_le(a, c),
    decreases a.len(),
{
    if a.len() > 0 && b.len() > 0 && c.len() > 0 && a[0] == b[0] && b[0] == c[0] {
        lemma_lex_transitive(a.drop_first(), b.drop_first(), c.drop_first());
    }
}

proof fn lemma_lex_skip(a: Seq<u8>, b: Seq<u8>, i: int)
    requires
        0 <= i <= a.len(),
        i <= b.len(),
        a.subrange(0, i) == b.subrange(0, i),
    ensures
        lex_le(a, b) == lex_le(a.skip(i), b.skip(i)),
    decreases i,
{
    if i > 0 {
        assert(a[0] == a.subrange(0, i)[0]);
        assert(b[0] == b.subrange(0, i)[0]);
        assert(a.drop_first().subrange(0, i - 1) == a.subrange(0, i).drop_first());
        assert(b.drop_first().subrange(0, i - 1) == b.subrange(0, i).drop_first());
        lemma_lex_skip(a.drop_first(), b.drop_first(), i - 1);
        assert(a.drop_first().skip(i - 1) == a.skip(i));
        assert(b.drop_first().skip(i - 1) == b.skip(i));
    } else {
        assert(a.skip(0) == a);
        assert(b.skip(0) == b);
    }
}

/// Compares two texts byte-wise lexicographically.
pub fn text_le(a: &[u8], b: &[u8]) -> (le: bool)
    ensures
        le == lex_le(a@, b@),
{
    let mut i: usize = 0;
    while i < a.len() && i < b.len()
        invariant
            i <= a@.len(),
            i <= b@.len(),
            a@.subrange(0, i as int) == b@.subrange(0, i as int),
        decreases a@.len() - i,
    {
        if a[i] != b[i] {
            proof {
                lemma_lex_skip(a@, b@, i as int);
                assert(a@.skip(i as int)[0] == a@[i as int]);
                assert(b@.skip(i as int)[0] == b@[i as int]);
            }
            return a[i] < b[i];
        }
        assert(a@.subrange(0, i + 1) == a@.subrange(0, i as int).push(a@[i as int]));
        assert(b@.subrange(0, i + 1) == b@.subrange(0, i as int).push(b@[i as int]));
        i = i + 1;
    }
    proof {
        lemma_lex_skip(a@, b@, i as int);
    }
    i == a.len()
}

/// The views of a list of texts.
pub open spec fn views(v: Seq<Vec<u8>>) -> Seq<Seq<u8>> {
    v.map_values(|t: Vec<u8>| t@)
}

/// Whether texts are in non-decreasing lexicographic order.
pub open spec fn sorted_texts(s: Seq<Seq<u8>>) -> bool {
    forall|i: int, j: int| 0 <= i < j < s.len() ==> lex_le(#[trigger] s[i], #[trigger] s[j])
}

/// Sorts texts lexicographically (stable insertion sort).
pub fn sort_texts(input: Vec<Vec<u8>>) -> (out: Vec<Vec<u8>>)
    ensures
        sorted_texts(views(out@)),
        views(out@).to_multiset() == views(input@).to_multiset(),
{
    broadcast use vstd::seq_lib::group_to_multiset_ensures, vstd::multiset::group_multiset_axioms;

    let mut out: Vec<Vec<u8>> = Vec::new();
    let mut rest = input;
    let ghost initial = views(rest@);
    proof {
        assert(views(out@) =~= Seq::<Seq<u8>>::empty());
        assert(views(out@).to_multiset().add(initial.to_multiset()) =~= initial.to_multiset());
    }
    // Move items out of `rest` back to front into `out`, keeping `out` sorted.
    while rest.len() > 0
        invariant
            sorted_texts(views(out@)),
            views(out@).to_multiset().add(views(rest@).to_multiset()) == initial.to_multiset(),
        decreases rest@.len(),
    {
        let ghost before_rest = views(rest@);
        let item = match rest.pop() {
            Some(x) => x,
            None => Vec::new(),
        };
        proof {
            assert(views(rest@).push(item@) =~= before_rest);
        }
        let mut p: usize = 0;
        while p < out.len() && text_le(out[p].as_slice(), item.as_slice())
            invariant
                p <= out@.len(),
                forall|j: int| 0 <= j < p ==> lex_le(#[trigger] views(out@)[j], item@),
            decreases out@.len() - p,
        {
            p = p + 1;
        }
        let ghost before_out = views(out@);
        proof {
            if p < out@.len() {
                lemma_lex_total(views(out@)[p as int], item@);
            }
        }
        out.insert(p, item);
        proof {
            let s = views(out@);
            assert(s == before_out.insert(p as int, item@));
            assert forall|k: int| p <= k < before_out.len() implies lex_le(item@, #[trigger] before_out[k]) by {
                if k > p {
                    lemma_lex_transitive(item@, before_out[p as int], before_out[k]);
                }
            }
            assert forall|i: int, j: int| 0 <= i < j < s.len() implies lex_le(#[trigger] s[i], #[trigger] s[j]) by {
                if j == p {
                    assert(s[i] == before_out[i]);
                } else if i == p {
                    assert(s[j] == before_out[j - 1]);
                } else if i < p && j > p {
                    assert(lex_le(item@, before_out[j - 1]));
                    lemma_lex_transitive(before_out[i], item@, before_out[j - 1]);
                } else if j < p {
                } else {
                    assert(s[i] == before_out[i - 1]);
                    assert(s[j] == before_out[j - 1]);
                }
            }
            vstd::seq_lib::to_multiset_insert(before_out, p as int, item@);
            vstd::seq_lib::to_multiset_build(views(rest@), item@);
            assert(views(out@).to_multiset() =~= before_out.to_multiset().insert(item@));
            assert(before_rest.to_multiset() =~= views(rest@).to_multiset().insert(item@));
            assert(views(out@).to_multiset().add(views(rest@).to_multiset()) =~= initial.to_multiset());
        }
    }
    proof {
        assert(views(rest@) =~= Seq::<Seq<u8>>::empty());
        assert(views(out@).to_multiset().add(views(rest@).to_multiset()) =~= views(out@).to_multiset());
    }
    out
}

/// Texts joined with newline separators.
pub open spec fn join_lines(s: Seq<Seq<u8>>) -> Seq<u8>
    decreases s.len(),
{
    if s.len() == 0 {
        Seq::empty()
    } else if s.len() == 1 {
        s[0]
    } else {
        join_lines(s.drop_last()) + seq![10u8] + s.last()
    }
}

/// Joins texts with newline separators.
pub fn join_texts(texts: &Vec<Vec<u8>>) -> (out: Vec<u8>)
    ensures
        out@ == join_lines(views(texts@)),
{
    let mut out: Vec<u8> = Vec::new();
    let mut i: usize = 0;
    while i < texts.len()
        invariant
            i <= texts@.len(),
            out@ == join_lines(views(texts@).subrange(0, i as int)),
        decreases texts@.len() - i,
    {
        if i > 0 {
            out.push(10u8);
        }
        append_bytes(&mut out, texts[i].as_slice());
        proof {
            let s = views(texts@).subrange(0, i + 1);
            assert(s.drop_last() == views(texts@).subrange(0, i as int));
            assert(s.last() == texts@[i as int]@);
            if i == 0 {
                assert(s.len() == 1);
            }
        }
        i = i + 1;
    }
    assert(views(texts@).subrange(0, texts@.len() as int) == views(texts@));
    out
}

/// The UTF-8 bytes of each name.
pub open spec fn encoded_names(names: Seq<String>) -> Seq<Seq<u8>> {
    names.map_values(|n: String| encode_utf8(n@))
}

/// The names, as UTF-8 bytes, sorted lexicographically and joined with
/// newline separators: exactly the names given, each as often as given.
pub fn scheme_listing(names: &Vec<String>) -> (text: Vec<u8>)
    ensures
        exists|listed: Seq<Seq<u8>>|
            #![trigger join_lines(listed)]
            text@ == join_lines(listed) && sorted_texts(listed) && listed.to_multiset()
                == encoded_names(names@).to_multiset(),
{
    let mut texts: Vec<Vec<u8>> = Vec::new();
    let mut i: usize = 0;
    while i < names.len()
        invariant
            i <= names@.len(),
            texts@.len() == i,
            forall|j: int| 0 <= j < i ==> #[trigger] texts@[j]@ == encode_utf8(names@[j]@),
        decreases names@.len() - i,
    {
        texts.push(copy_bytes(names[i].as_str().as_bytes()));
        i = i + 1;
    }
    assert(views(texts@) =~= encoded_names(names@));
    let sorted = sort_texts(texts);
    let joined = join_texts(&sorted);
    assert(joined@ == join_lines(views(sorted@)));
    joined
}

/// Distinct names have distinct encodings, and a listed name stays listed.
proof fn lemma_encoded_names(names: Seq<String>)
    requires
        exists|i: int| 0 <= i < names.len() && #[trigger] names[i]@ == "memory"@,
        forall|i: int, j: int| 0 <= i < j < names.len() ==> names[i]@ != names[j]@,
    ensures
        encoded_names(names).no_duplicates(),
        encoded_names(names).contains("memory".spec_bytes()),
{
    let k = choose|k: int| 0 <= k < names.len() && #[trigger] names[k]@ == "memory"@;
    assert(encoded_names(names)[k] == "memory".spec_bytes());
    assert forall|a: int, b: int|
        0 <= a < encoded_names(names).len() && 0 <= b < encoded_names(names).len() && a != b implies encoded_names(
        names,
    )[a] != encoded_names(names)[b] by {
        vstd::utf8::encode_utf8_decode_utf8(names[a]@);
        vstd::utf8::encode_utf8_decode_utf8(names[b]@);
    }
}

impl Bridge {
    /// Copies the registered service schemes, sorted and separated by newlines
    /// (see [`scheme_listing`]), into a new buffer handle; returns `0` after
    /// recording a failure.
    pub fn registered_schemes(&mut self) -> (buffer: u32)
        requires
            old(self).wf(),
        ensures
            final(self).wf(),
            exists|schemes: Seq<Seq<u8>>|
                #![trigger join_lines(schemes)]
                sorted_texts(schemes) && schemes.no_duplicates() && schemes.contains("memory".spec_bytes())
                    && buffer_stored(
                    old(self),
                    final(self),
                    buffer,
                    join_lines(schemes),
                ),
    {
        init_registry();
        let names = registry_schemes(default_registry());
        let joined = scheme_listing(&names);
        let ghost listed = choose|listed: Seq<Seq<u8>>|
            #![trigger join_lines(listed)]
            joined@ == join_lines(listed) && sorted_texts(listed) && listed.to_multiset() == encoded_names(
                names@,
            ).to_multiset();
        proof {
            broadcast use vstd::seq_lib::group_to_multiset_ensures;
            lemma_encoded_names(names@);
            encoded_names(names@).lemma_multiset_has_no_duplicates();
            listed.lemma_multiset_has_no_duplicates_conv();
            assert(encoded_names(names@).to_multiset().count("memory".spec_bytes()) > 0);
            assert(listed.contains("memory".spec_bytes()));
        }
        let result = insert_buffer(self, joined);
        proof {
            if let Ok(h) = result {
                crate::handle::lemma_handle_decompose(h);
            }
        }
        let buffer = handle_or_record_error(self, result);
        assert(buffer_stored(old(self), final(self), buffer, join_lines(listed)));
        buffer
    }
}

} // verus!
