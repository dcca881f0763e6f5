//! The translation context: a registry of locales and the active-locale cell.

use vstd::prelude::*;
use crate::formatting::{curly_formatted, seq_views, FormatError};
use crate::locale::{composite_key, spec_composite_key, Locale};

verus! {

/// Whether a string is a well-formed RFC 5646 language tag; a function of the
/// characters alone.
pub uninterp spec fn is_language_tag(tag: Seq<char>) -> bool;

/// Relies on oxilangtag's `LanguageTag::parse`: it accepts exactly the
/// well-formed RFC 5646 language tags, deciding from the characters alone.
#[verifier::external_body]
fn well_formed_tag(tag: &str) -> (r: bool)
    ensures
        r == is_language_tag(tag@),
{
    oxilangtag::LanguageTag::parse(tag).is_ok()
}

/// Relies on sys_locale's `get_locale`: the host's preferred locale
/// identifier, when one could be determined. Nothing is promised of the
/// result: it depends on the environment alone.
#[verifier::external_body]
fn system_locale() -> Option<String> {
    sys_locale::get_locale()
}

/// The index of the first locale whose name is `name`, if any.
pub open spec fn spec_find_locale(locales: Seq<Locale>, name: Seq<char>) -> Option<int>
    decreases locales.len(),
{
    if locales.len() == 0 {
        None
    } else if locales[0].name@ == name {
        Some(0int)
    } else {
        match spec_find_locale(locales.drop_first(), name) {
            Some(i) => Some(i + 1),
            None => None,
        }
    }
}

/// The locale selection that a tag produces: none for an empty tag, a
/// malformed tag or an unregistered name, else the first registered locale of
/// that name. It depends on the registry and the tag alone, never on the
/// previous selection.
pub open spec fn spec_set_locale(locales: Seq<Locale>, tag: Seq<char>) -> Option<int> {
    if tag.len() == 0 || !is_language_tag(tag) {
        None
    } else {
        spec_find_locale(locales, tag)
    }
}

/// The translation context: the registry of available locales, fixed after
/// construction, and at most one active locale, referenced by index.
pub struct Translator {
    pub locales: Vec<Locale>,
    pub active: Option<usize>,
}

impl Translator {
    /// The active-locale cell references a locale of the registry.
    pub open spec fn wf(self) -> bool {
        match self.active {
            Some(i) => i < self.locales@.len(),
            None => true,
        }
    }

    /// The active locale, if any.
    pub open spec fn active_locale(self) -> Option<Locale> {
        match self.active {
            Some(i) => Some(self.locales@[i as int]),
            None => None,
        }
    }

    /// The name of the active locale, if any.
    pub open spec fn spec_active_name(self) -> Option<Seq<char>> {
        match self.active_locale() {
            Some(l) => Some(l.name@),
            None => None,
        }
    }

    /// What a lookup resolves to: the original text when no locale is active
    /// or the composite key is absent, else the stored translation.
    pub open spec fn spec_translate(self, prefix: Seq<char>, text: Seq<char>) -> Seq<char> {
        match self.active_locale() {
            None => text,
            Some(loc) => {
                let key = spec_composite_key(prefix, text);
                if loc.translations().contains_key(key) {
                    loc.translations()[key]
                } else {
                    text
                }
            },
        }
    }

    /// What the combined lookup-and-format entry point returns: the resolved
    /// text with the arguments substituted, or the empty string when
    /// substitution fails.
    pub open spec fn spec_tr(self, prefix: Seq<char>, text: Seq<char>, args: Seq<Seq<char>>) -> Seq<
        char,
    > {
        match curly_formatted(self.spec_translate(prefix, text), args) {
            Some(out) => out,
            None => Seq::empty(),
        }
    }

    /// A context over the given registry, with no locale active.
    pub fn new(locales: Vec<Locale>) -> (r: Translator)
        ensures
            r.wf(),
            r.locales == locales,
            r.active is None,
    {
        Translator { locales, active: None }
    }

    /// Selects the locale whose name is `tag`, or clears the selection when
    /// `tag` is empty, is not a well-formed language tag, or names no
    /// registered locale; translation is then a pass-through until a valid
    /// tag is set. Returns the name of the locale now active, if any.
    pub fn set_locale(&mut self, tag: &str) -> (r: Option<String>)
        requires
            old(self).wf(),
        ensures
            final(self).wf(),
            final(self).locales == old(self).locales,
            match final(self).active {
                Some(i) => spec_set_locale(old(self).locales@, tag@) == Some(i as int),
                None => spec_set_locale(old(self).locales@, tag@) is None,
            },
            match r {
                Some(s) => final(self).spec_active_name() == Some(s@),
                None => final(self).spec_active_name() is None,
            },
    {
        if tag.is_empty() {
            self.active = None;
            return None;
        }
        if !well_formed_tag(tag) {
            self.active = None;
            return None;
        }
        match find_locale(&self.locales, tag) {
            Some(i) => {
                self.active = Some(i);
                Some(self.locales[i].name.clone())
            },
            None => {
                self.active = None;
                None
            },
        }
    }

    /// The name of the currently active locale, or none.
    pub fn get_active_locale_name(&self) -> (r: Option<String>)
        requires
            self.wf(),
        ensures
            match r {
                Some(s) => self.spec_active_name() == Some(s@),
                None => self.spec_active_name() is None,
            },
    {
        match self.active {
            Some(i) => Some(self.locales[i].name.clone()),
            None => None,
        }
    }

    /// Resolves `(prefix, text)` to its best-known translation: the active
    /// locale's entry for the composite key when there is one, else `text`
    /// unchanged. Never fails: a missing translation is an expected outcome.
    pub fn translate(&self, prefix: &str, text: &str) -> (r: String)
        requires
            self.wf(),
        ensures
            r@ == self.spec_translate(prefix@, text@),
    {
        let i = match self.active {
            Some(i) => i,
            None => {
                return text.to_owned();
            },
        };
        let key = composite_key(prefix, text);
        match self.locales[i].lookup(key.as_str()) {
            Some(v) => v,
            None => text.to_owned(),
        }
    }

    /// Resolves `(prefix, text)` as [`Translator::translate`] does, then
    /// substitutes the arguments for the resolved text's `{}` placeholders.
    /// A substitution failure is absorbed into an empty string: this entry
    /// point never fails its caller.
    pub fn tr(&self, prefix: &str, text: &str, args: &Vec<String>) -> (r: String)
        requires
            self.wf(),
        ensures
            r@ == self.spec_tr(prefix@, text@, seq_views(args@)),
    {
        let resolved = self.translate(prefix, text);
        let formatted: Result<String, FormatError> = crate::formatting::format(
            resolved.as_str(),
            args,
        );
        match formatted {
            Ok(s) => s,
            Err(_) => String::new(),
        }
    }

    /// Feeds the host's preferred locale, when one is reported, into
    /// [`Translator::set_locale`]; with no report the selection is left as it
    /// was. Returns the name of the locale now active, if any.
    pub fn auto_detect(&mut self) -> (r: Option<String>)
        requires
            old(self).wf(),
        ensures
            final(self).wf(),
            final(self).locales == old(self).locales,
            final(self).active == old(self).active || (exists|tag: Seq<char>|
                selection_matches(old(self).locales@, tag, final(self).active)),
            match r {
                Some(s) => final(self).spec_active_name() == Some(s@),
                None => final(self).spec_active_name() is None,
            },
    {
        match system_locale() {
            Some(tag) => {
                let r = self.set_locale(tag.as_str());
                proof {
                    assert(selection_matches(old(self).locales@, tag@, final(self).active));
                }
                r
            },
            None => self.get_active_locale_name(),
        }
    }
}

/// Whether `active` is the selection that `tag` produces over `locales`.
pub open spec fn selection_matches(
    locales: Seq<Locale>,
    tag: Seq<char>,
    active: Option<usize>,
) -> bool {
    match active {
        Some(i) => spec_set_locale(locales, tag) == Some(i as int),
        None => spec_set_locale(locales, tag) is None,
    }
}

/// The index of the first locale named `name`, if any.
fn find_locale(locales: &Vec<Locale>, name: &str) -> (r: Option<usize>)
    ensures
        match r {
            Some(i) => i < locales@.len() && spec_find_locale(locales@, name@) == Some(i as int),
            None => spec_find_locale(locales@, name@) is None,
        },
{
    let owned = name.to_owned();
    let n = locales.len();
    let mut i: usize = 0;
    proof {
        assert(locales@.skip(0) =~= locales@);
    }
    while i < n
        invariant
            n == locales@.len(),
            owned@ == name@,
            i <= n,
            spec_find_locale(locales@, name@) == match spec_find_locale(
                locales@.skip(i as int),
                name@,
            ) {
                Some(j) => Some(j + i),
                None => None::<int>,
            },
        decreases n - i,
    {
        proof {
            assert(locales@.skip(i as int)[0] == locales@[i as int]);
        }
        if locales[i].name == owned {
            return Some(i);
        }
        proof {
            assert(locales@.skip(i as int).drop_first() =~= locales@.skip(i as int + 1));
        }
        i = i + 1;
    }
    proof {
        assert(locales@.skip(n as int) =~= Seq::<Locale>::empty());
    }
    None
}

} // verus!
