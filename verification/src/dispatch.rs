//! Custom functions: the trait their providers implement, the registration
//! of providers with libsass, and the decisions taken when libsass calls one.
//!
//! Calls from libsass arrive on another thread; the channels that carry a
//! call and its reply are run by the program around the library, which hands
//! the library what arrived and takes back what to answer.

use vstd::prelude::*;
use crate::context::{FunctionEntry, OptionsState, SassOptions, entry_views};
use crate::text::{no_nul_char, push_text};
use crate::value::{RawValue, SassValue};

verus! {

/// Implemented by providers of custom sass functions.
pub trait SassFunction {
    fn custom(&self, input: &SassValue) -> SassValue;
}

/// A call of a custom function, as it travels from libsass to the dispatcher.
pub struct CustomFunctionCall {
    pub slot: usize,
    pub argument: SassValue,
}

/// The cookie that libsass hands back with each call of a custom function.
pub struct DispatchSlot {
    pub slot: usize,
}

/// The providers of the custom functions, in the order of their slots.
pub struct Dispatcher<F> {
    pub providers: Vec<F>,
    pub dispatch_slots: Vec<DispatchSlot>,
}

/// The entries with which `build` registers a registry: each signature with
/// its position as slot.
pub open spec fn registered<F>(registry: Seq<(String, F)>) -> Seq<(Seq<char>, usize)> {
    Seq::new(registry.len(), |i: int| (registry[i].0@, i as usize))
}

/// Every slot that `build` registers names a provider: the slot of entry
/// `i` is `i`, below the number of providers, and the signature is the one
/// registered at `i`.
pub proof fn registered_slots_in_range<F>(registry: Seq<(String, F)>)
    requires
        registry.len() <= usize::MAX,
    ensures
        registered(registry).len() == registry.len(),
        forall|i: int|
            0 <= i < registry.len() ==> (#[trigger] registered(registry)[i]).1 == i
                && registered(registry)[i].1 < registry.len()
                && registered(registry)[i].0 == registry[i].0@,
{
}

/// The signatures of a registry can all pass as C strings.
pub open spec fn signatures_without_nul<F>(registry: Seq<(String, F)>) -> bool {
    forall|i: int| 0 <= i < registry.len() ==> no_nul_char(#[trigger] registry[i].0@)
}

impl DispatchSlot {
    /// What the slot answers libsass with: the provider's reply, or an error
    /// value when the call or its reply got lost.
    pub fn send(reply: Option<SassValue>) -> (v: SassValue)
        ensures
            reply matches Some(r) ==> v == r,
            reply is None ==> (v.raw matches RawValue::Error(m) && m@ == "send error"@)
                && !v.is_const,
    {
        match reply {
            Some(r) => r,
            None => error_value("send error"),
        }
    }
}

/// A new error value whose message is a text of the library's own.
fn error_value(message: &str) -> (v: SassValue)
    ensures
        v.raw matches RawValue::Error(m) && m@ == message@,
        !v.is_const,
{
    let mut m = String::new();
    push_text(&mut m, message);
    assert(m@ =~= message@);
    SassValue { raw: RawValue::Error(m), is_const: false }
}

/// What the dispatch function hands back to libsass: the reply if the
/// library made it, else an error value, since libsass must not receive a
/// value that it owns.
pub fn value_for_libsass(reply: SassValue) -> (v: SassValue)
    ensures
        !v.is_const,
        !reply.is_const ==> v == reply,
        reply.is_const ==> (v.raw matches RawValue::Error(m) && m@ == "bad call"@),
{
    if reply.is_const {
        error_value("bad call")
    } else {
        reply
    }
}

impl<F: SassFunction> Dispatcher<F> {
    /// Registers the providers in the order given: the provider at position
    /// `i` answers the calls of slot `i`, and the option record learns each
    /// signature with its slot.
    pub fn build(registry: Vec<(String, F)>, sass_options: &mut SassOptions) -> (d: Dispatcher<F>)
        requires
            signatures_without_nul(registry@),
        ensures
            d.providers@ == registry@.map_values(|p: (String, F)| p.1),
            d.dispatch_slots@.len() == registry@.len(),
            forall|i: int| 0 <= i < registry@.len() ==> #[trigger] d.dispatch_slots@[i].slot == i,
            final(sass_options)@ == (OptionsState {
                c_functions: Some(registered(registry@)),
                ..old(sass_options)@
            }),
    {
        let ghost original = registry@;
        let mut rest = registry;
        let total: usize = rest.len();
        assert(original.len() == total);
        let mut providers: Vec<F> = Vec::new();
        let mut slots: Vec<DispatchSlot> = Vec::new();
        let mut callbacks: Vec<FunctionEntry> = Vec::new();
        let mut index: usize = 0;
        while rest.len() > 0
            invariant
                index + rest@.len() == original.len(),
                original.len() <= usize::MAX,
                rest@ == original.skip(index as int),
                providers@ == original.take(index as int).map_values(|p: (String, F)| p.1),
                slots@.len() == index,
                forall|i: int| 0 <= i < index ==> #[trigger] slots@[i].slot == i,
                callbacks@.len() == index,
                forall|j: int|
                    0 <= j < index ==> (#[trigger] callbacks@[j]).signature@ == original[j].0@
                        && callbacks@[j].slot == j,
            decreases rest@.len(),
        {
            let (signature, provider) = rest.remove(0);
            assert(original[index as int] == (signature, provider));
            callbacks.push(FunctionEntry { signature, slot: index });
            providers.push(provider);
            slots.push(DispatchSlot { slot: index });
            assert(original.take(index as int + 1) =~= original.take(index as int).push(
                original[index as int],
            ));
            index = index + 1;
            assert(rest@ =~= original.skip(index as int));
            assert(providers@ =~= original.take(index as int).map_values(|p: (String, F)| p.1));
        }
        assert(original.take(index as int) =~= original);
        assert(entry_views(callbacks@) =~= registered(original));
        sass_options.set_sass_functions(callbacks);
        Dispatcher { providers, dispatch_slots: slots }
    }

    /// Answers a call that arrived: the provider of its slot computes the
    /// reply from the call's argument. When nothing arrived the dispatch has
    /// ended.
    pub fn dispatch(&self, call: Option<&CustomFunctionCall>) -> (r: Result<SassValue, String>)
        requires
            call matches Some(c) ==> c.slot < self.providers@.len(),
        ensures
            r is Ok <==> call is Some,
            call matches Some(c) ==> (r matches Ok(v) && call_ensures(
                F::custom,
                (&self.providers@[c.slot as int], &c.argument),
                v,
            )),
            r matches Err(e) ==> e@ == "dispatch recv error"@,
    {
        match call {
            Some(c) => Ok(self.providers[c.slot].custom(&c.argument)),
            None => {
                let mut e = String::new();
                push_text(&mut e, "dispatch recv error");
                assert(e@ =~= "dispatch recv error"@);
                Err(e)
            },
        }
    }

    /// The outcome of a dispatch once the reply was sent, or could not be.
    pub fn reply_outcome(delivered: bool) -> (r: Result<(), String>)
        ensures
            r is Ok <==> delivered,
            r matches Err(e) ==> e@ == "dispatch reply error"@,
    {
        if delivered {
            Ok(())
        } else {
            let mut e = String::new();
            push_text(&mut e, "dispatch reply error");
            assert(e@ =~= "dispatch reply error"@);
            Err(e)
        }
    }

    /// Withdraws the custom functions from the option record, as the
    /// dispatcher does when it goes away.
    pub fn release(&self, sass_options: &mut SassOptions)
        ensures
            final(sass_options)@ == (OptionsState {
                c_functions: Some(Seq::empty()),
                ..old(sass_options)@
            }),
    {
        let none: Vec<FunctionEntry> = Vec::new();
        sass_options.set_sass_functions(none);
        assert(entry_views(Seq::<FunctionEntry>::empty()) =~= Seq::empty());
    }
}

} // verus!
