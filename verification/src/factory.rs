//! `org.freedesktop.IBus.Factory`: the daemon asks for an engine by name
//! once per client context that selects this input method, and gets the
//! object path of a fresh engine, `/org/freedesktop/IBus/Engine/<n>`.
//! Serving the objects on the bus is the caller's; this decides the answer.

use crate::text::{decimal, decimal_text, str_eq};
use vstd::prelude::*;

verus! {

/// The engine name the component XML declares; every other name is
/// refused the way ibus refuses it.
pub const ENGINE_NAME: &'static str = "taigikeyboard";

pub const FACTORY_PATH: &'static str = "/org/freedesktop/IBus/Factory";

pub const ENGINE_PATH_PREFIX: &'static str = "/org/freedesktop/IBus/Engine/";

/// The factory: how many engines it has created.
#[derive(Debug)]
pub struct Factory {
    created: usize,
}

impl Factory {
    pub closed spec fn created_count(&self) -> nat {
        self.created as nat
    }

    pub fn new() -> (factory: Self)
        ensures
            factory.created_count() == 0,
    {
        Factory { created: 0 }
    }

    /// How many engines were created.
    pub fn created(&self) -> (count: usize)
        ensures
            count == self.created_count(),
    {
        self.created
    }

    /// `CreateEngine(name)`: the next engine's object path, numbered from
    /// 1 in creation order, or the refusal for an unknown engine name.
    pub fn create_engine(&mut self, name: &str) -> (result: Result<String, String>)
        requires
            old(self).created_count() < usize::MAX,
        ensures
            name@ == ENGINE_NAME@ ==> {
                &&& final(self).created_count() == old(self).created_count() + 1
                &&& result matches Ok(path) && path@ == ENGINE_PATH_PREFIX@ + decimal(
                    final(self).created_count(),
                )
            },
            name@ != ENGINE_NAME@ ==> {
                &&& final(self).created_count() == old(self).created_count()
                &&& result matches Err(message) && message@ == "Cannot find engine "@ + name@
            },
    {
        if !str_eq(name, ENGINE_NAME) {
            return Err(String::from_str("Cannot find engine ").concat(name));
        }
        self.created = self.created + 1;
        let ordinal = decimal_text(self.created as u64);
        Ok(String::from_str(ENGINE_PATH_PREFIX).concat(ordinal.as_str()))
    }
}

/// Distinct creations get distinct engine paths: the ordinals' decimal
/// spellings differ.
pub proof fn lemma_decimal_is_injective(a: nat, b: nat)
    requires
        a != b,
    ensures
        decimal(a) != decimal(b),
    decreases a + b,
{
    if a < 10 && b < 10 {
        assert(decimal(a)[0] != decimal(b)[0]);
    } else if a < 10 {
        lemma_decimal_length(b / 10);
        assert(decimal(b).len() >= 2);
    } else if b < 10 {
        lemma_decimal_length(a / 10);
        assert(decimal(a).len() >= 2);
    } else if a % 10 != b % 10 {
        assert(decimal(a).last() != decimal(b).last());
    } else {
        lemma_decimal_is_injective(a / 10, b / 10);
        assert(decimal(a).drop_last() == decimal(a / 10));
        assert(decimal(b).drop_last() == decimal(b / 10));
    }
}

/// Every engine the factory creates gets a path of its own: the `a`-th
/// and the `b`-th creations answer different paths.
pub proof fn lemma_engine_paths_are_distinct(a: nat, b: nat)
    requires
        a != b,
    ensures
        ENGINE_PATH_PREFIX@ + decimal(a) != ENGINE_PATH_PREFIX@ + decimal(b),
{
    lemma_decimal_is_injective(a, b);
    let prefix = ENGINE_PATH_PREFIX@;
    if prefix + decimal(a) == prefix + decimal(b) {
        assert((prefix + decimal(a)).skip(prefix.len() as int) =~= decimal(a));
        assert((prefix + decimal(b)).skip(prefix.len() as int) =~= decimal(b));
    }
}

proof fn lemma_decimal_length(n: nat)
    ensures
        decimal(n).len() >= 1,
    decreases n,
{
    if n >= 10 {
        lemma_decimal_length(n / 10);
    }
}

} // verus!
