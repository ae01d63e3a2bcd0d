//! A model of the browser-held registration record for the one scope the
//! registrar manages.
//!
//! The browser binds a scope to at most one registration at a time.
//! Requesting registration of a script URL is idempotent: asking again for
//! the same URL returns the existing registration unchanged, while asking
//! for a different URL reuses the same registration record and merely
//! replaces its recorded script URL (the browser then begins the install
//! pipeline for the new script).  Registrations are told apart by an
//! identity that the model makes explicit as a number.

use vstd::prelude::*;

verus! {

/// The registration record the browser holds for the managed scope.
#[derive(Debug, Clone, PartialEq)]
pub struct RegEntry {
    /// Identity of the registration record.
    pub reg_id: u64,
    /// The script URL the registration currently points at.
    pub script_url: String,
}

/// The browser's registration state for the one managed scope.
#[derive(Debug, Clone, PartialEq)]
pub struct BrowserRegistry {
    /// The identity the next freshly created registration will receive.
    pub next_id: u64,
    /// The registration at the managed scope, if any.
    pub entry: Option<RegEntry>,
}

/// Mathematical image of a [`RegEntry`].
pub struct RegEntryView {
    pub reg_id: int,
    pub script_url: Seq<char>,
}

/// Mathematical image of a [`BrowserRegistry`].
pub struct RegistryView {
    pub next_id: int,
    pub entry: Option<RegEntryView>,
}

impl View for BrowserRegistry {
    type V = RegistryView;

    open spec fn view(&self) -> RegistryView {
        RegistryView {
            next_id: self.next_id as int,
            entry: match self.entry {
                Option::Some(en) => Option::Some(RegEntryView {
                    reg_id: en.reg_id as int,
                    script_url: en.script_url@,
                }),
                Option::None => Option::None,
            },
        }
    }
}

/// What a registration request does to the registry: the state afterwards,
/// and the identity of the registration it yields.
pub open spec fn register_spec(v: RegistryView, url: Seq<char>) -> (RegistryView, int) {
    match v.entry {
        Option::Some(en) => if en.script_url == url {
            (v, en.reg_id)
        } else {
            (
                RegistryView {
                    next_id: v.next_id,
                    entry: Option::Some(RegEntryView { reg_id: en.reg_id, script_url: url }),
                },
                en.reg_id,
            )
        },
        Option::None => (
            RegistryView {
                next_id: v.next_id + 1,
                entry: Option::Some(RegEntryView { reg_id: v.next_id, script_url: url }),
            },
            v.next_id,
        ),
    }
}

impl BrowserRegistry {
    /// A registry with no registration at the managed scope, handing out
    /// identities from 0.
    pub fn new() -> (r: BrowserRegistry)
        ensures
            r@ == (RegistryView { next_id: 0, entry: Option::None }),
    {
        BrowserRegistry { next_id: 0, entry: Option::None }
    }

    /// Requests registration of `url` at the managed scope and returns the
    /// identity of the registration that now governs the scope, exactly as
    /// [`register_spec`] describes.
    pub fn register(&mut self, url: &String) -> (r: u64)
        requires
            old(self).next_id < u64::MAX,
        ensures
            (final(self)@, r as int) == register_spec(old(self)@, url@),
    {
        match &self.entry {
            Option::Some(en) => {
                let id: u64 = en.reg_id;
                let same: bool = en.script_url == *url;
                if same {
                    id
                } else {
                    self.entry = Option::Some(RegEntry { reg_id: id, script_url: url.clone() });
                    id
                }
            }
            Option::None => {
                let id: u64 = self.next_id;
                self.next_id = self.next_id + 1;
                self.entry = Option::Some(RegEntry { reg_id: id, script_url: url.clone() });
                id
            }
        }
    }
}

/// Law: registering the same URL twice in sequence yields the same
/// registration both times, and the second request changes nothing — no
/// duplicate registration, no observable side effect.
pub proof fn lemma_register_idempotent(v: RegistryView, url: Seq<char>)
    ensures
        ({
            let (v1, id1) = register_spec(v, url);
            let (v2, id2) = register_spec(v1, url);
            v2 == v1 && id2 == id1
        }),
{
}

} // verus!
