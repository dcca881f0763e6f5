//! Locales and their read-only translation tables.

use vstd::prelude::*;

verus! {

/// The composite lookup key for a `(prefix, text)` pair: `prefix + "." + text`
/// when the prefix is non-empty, else `text` itself.
pub open spec fn spec_composite_key(prefix: Seq<char>, text: Seq<char>) -> Seq<char> {
    if prefix.len() == 0 {
        text
    } else {
        prefix + seq!['.'] + text
    }
}

/// Builds the composite lookup key from a namespace prefix and source text.
pub fn composite_key(prefix: &str, text: &str) -> (r: String)
    ensures
        r@ == spec_composite_key(prefix@, text@),
{
    if prefix.is_empty() {
        text.to_owned()
    } else {
        let mut key = prefix.to_owned();
        key.append(".");
        key.append(text);
        proof {
            reveal_strlit(".");
            assert(key@ =~= spec_composite_key(prefix@, text@));
        }
        key
    }
}

/// One locale: an identifier (a language-tag-like name, e.g. `"zh-CN"`) and a
/// read-only table of `composite key -> translated text` pairs, fixed at
/// creation.
pub struct Locale {
    pub name: String,
    pub translate: Vec<(String, String)>,
}

/// First-match lookup of `key` among the raw key/value pairs of a table.
pub open spec fn spec_lookup(entries: Seq<(String, String)>, key: Seq<char>) -> Option<Seq<char>>
    decreases entries.len(),
{
    if entries.len() == 0 {
        None
    } else if entries[0].0@ == key {
        Some(entries[0].1@)
    } else {
        spec_lookup(entries.drop_first(), key)
    }
}

impl Locale {
    /// The translation table as a mathematical map from composite key to
    /// translated text. When a key is repeated, the earliest pair decides.
    pub open spec fn translations(self) -> Map<Seq<char>, Seq<char>> {
        Map::new(
            |k: Seq<char>| spec_lookup(self.translate@, k) is Some,
            |k: Seq<char>| spec_lookup(self.translate@, k)->Some_0,
        )
    }

    /// Looks `key` up in this locale's table: the translated text when the
    /// key is present, `None` otherwise.
    pub fn lookup(&self, key: &str) -> (r: Option<String>)
        ensures
            match r {
                Some(v) => self.translations().contains_key(key@) && v@ == self.translations()[key@],
                None => !self.translations().contains_key(key@),
            },
    {
        let owned = key.to_owned();
        let n = self.translate.len();
        let mut i: usize = 0;
        proof {
            assert(self.translate@.skip(0) =~= self.translate@);
        }
        while i < n
            invariant
                n == self.translate@.len(),
                owned@ == key@,
                i <= n,
                spec_lookup(self.translate@.skip(i as int), key@) == spec_lookup(
                    self.translate@,
                    key@,
                ),
            decreases n - i,
        {
            proof {
                assert(self.translate@.skip(i as int)[0] == self.translate@[i as int]);
            }
            if self.translate[i].0 == owned {
                return Some(self.translate[i].1.clone());
            }
            proof {
                assert(self.translate@.skip(i as int).drop_first() =~= self.translate@.skip(
                    i as int + 1,
                ));
            }
            i = i + 1;
        }
        proof {
            assert(self.translate@.skip(n as int) =~= Seq::<(String, String)>::empty());
        }
        None
    }
}

} // verus!
