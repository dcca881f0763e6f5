//! The library's laws: what holds of resolution and locale selection at large.

use vstd::prelude::*;
use crate::locale::{spec_composite_key, Locale};
use crate::translator::{
    is_language_tag, selection_matches, spec_find_locale, spec_set_locale, Translator,
};

verus! {

/// With no locale active, resolution is the identity: every `(prefix, text)`
/// pair resolves to `text` itself.
pub proof fn lemma_identity_when_disabled(t: Translator, prefix: Seq<char>, text: Seq<char>)
    requires
        t.active is None,
    ensures
        t.spec_translate(prefix, text) == text,
{
}

/// With a locale active whose table lacks the composite key, resolution falls
/// back to the original text: an untranslated string never disappears.
pub proof fn lemma_fallback_on_miss(t: Translator, prefix: Seq<char>, text: Seq<char>)
    requires
        t.wf(),
        t.active is Some,
        !t.active_locale()->Some_0.translations().contains_key(spec_composite_key(prefix, text)),
    ensures
        t.spec_translate(prefix, text) == text,
{
}

/// With a locale active whose table holds the composite key, resolution
/// returns exactly the stored translation.
pub proof fn lemma_exact_hit(t: Translator, prefix: Seq<char>, text: Seq<char>)
    requires
        t.wf(),
        t.active is Some,
        t.active_locale()->Some_0.translations().contains_key(spec_composite_key(prefix, text)),
    ensures
        t.spec_translate(prefix, text) == t.active_locale()->Some_0.translations()[
            spec_composite_key(prefix, text)
        ],
{
}

/// Distinct non-empty prefixes never collide: for the same text they produce
/// distinct composite keys, so their translations resolve independently.
pub proof fn lemma_prefix_isolation(a: Seq<char>, b: Seq<char>, text: Seq<char>)
    requires
        a.len() > 0,
        b.len() > 0,
        a != b,
    ensures
        spec_composite_key(a, text) != spec_composite_key(b, text),
{
    let ka = spec_composite_key(a, text);
    let kb = spec_composite_key(b, text);
    assert(ka.len() == a.len() + 1 + text.len());
    assert(kb.len() == b.len() + 1 + text.len());
    if a.len() == b.len() && ka == kb {
        assert forall|i: int| 0 <= i < a.len() implies a[i] == b[i] by {
            assert(ka[i] == a[i]);
            assert(kb[i] == b[i]);
        }
        assert(a =~= b);
    }
}

/// An empty tag, a malformed tag, or a tag naming no registered locale always
/// clears the selection, whatever was selected before: the selection a tag
/// produces depends on the registry and the tag alone, so repeating the call
/// changes nothing, and resolution is then the identity.
pub proof fn lemma_reset_clears(locales: Seq<Locale>, tag: Seq<char>)
    requires
        tag.len() == 0 || !is_language_tag(tag) || spec_find_locale(locales, tag) is None,
    ensures
        spec_set_locale(locales, tag) is None,
{
}

/// A context whose selection a clearing tag produced — empty, malformed, or
/// naming no registered locale — has no active locale, reports no name, and
/// resolves every `(prefix, text)` pair to `text` itself.
pub proof fn lemma_reset_disables_translation(
    t: Translator,
    tag: Seq<char>,
    prefix: Seq<char>,
    text: Seq<char>,
)
    requires
        tag.len() == 0 || !is_language_tag(tag) || spec_find_locale(t.locales@, tag) is None,
        selection_matches(t.locales@, tag, t.active),
    ensures
        t.active is None,
        t.spec_active_name() is None,
        t.spec_translate(prefix, text) == text,
{
    lemma_reset_clears(t.locales@, tag);
}

} // verus!
