//! The document state: the process-wide symbol cache holding the symbol
//! sets of the most recently analyzed document text.
//!
//! The cache is guarded by a reader/writer lock whose invariant is
//! [`coherent`]: every value stored in the lock is the complete extraction
//! result of one single document text. An update replaces the whole value
//! under one write acquisition, so a concurrent reader can never observe
//! the function list of one analysis pass paired with the variable list of
//! another.

use crate::extractor::{extract_symbols, spec_function_names, spec_variable_names};
use crate::lines::spec_lines;
use vstd::prelude::*;
use vstd::rwlock::{RwLock, RwLockPredicate};

verus! {

/// The latest extracted symbol sets: the function names and the variable
/// names observed in the document, in declaration order, duplicates
/// preserved.
#[derive(Debug)]
pub struct State {
    pub custom_funcs: Vec<String>,
    pub custom_vars: Vec<String>,
}

/// A coherent state: both symbol lists come from one extraction pass over
/// one single document text.
pub open spec fn coherent(s: State) -> bool {
    exists|text: Seq<char>|
        s.custom_funcs.deep_view() == spec_function_names(spec_lines(text))
            && s.custom_vars.deep_view() == spec_variable_names(spec_lines(text))
}

/// The lock invariant: only coherent states are ever stored.
pub struct CoherentPred;

impl RwLockPredicate<State> for CoherentPred {
    open spec fn inv(self, s: State) -> bool {
        coherent(s)
    }
}

/// The shared, lock-guarded document state, injected into every request
/// handler through shared ownership.
pub struct SharedState {
    lock: RwLock<State, CoherentPred>,
}

fn clone_string_vec(v: &Vec<String>) -> (r: Vec<String>)
    ensures
        r.deep_view() == v.deep_view(),
{
    let mut r: Vec<String> = Vec::new();
    let mut i: usize = 0;
    while i < v.len()
        invariant
            i <= v.len(),
            r.deep_view() == v.deep_view().take(i as int),
        decreases v.len() - i,
    {
        let ghost old_r = r.deep_view();
        r.push(v[i].clone());
        proof {
            assert(r.deep_view() =~= old_r + seq![v.deep_view()[i as int]]);
            assert(r.deep_view() =~= v.deep_view().take(i + 1));
        }
        i = i + 1;
    }
    proof {
        assert(r.deep_view() =~= v.deep_view());
    }
    r
}

impl SharedState {
    #[verifier::type_invariant]
    spec fn wf(self) -> bool {
        self.lock.pred() == CoherentPred
    }

    /// A fresh cache: the symbol sets of the empty document, replaced in
    /// full on every later analysis pass.
    pub fn new() -> (s: Self) {
        let init = State { custom_funcs: Vec::new(), custom_vars: Vec::new() };
        proof {
            let text = Seq::<char>::empty();
            assert(init.custom_funcs.deep_view() =~= spec_function_names(spec_lines(text)));
            assert(init.custom_vars.deep_view() =~= spec_variable_names(spec_lines(text)));
            assert(coherent(init));
        }
        SharedState { lock: RwLock::new(init, Ghost(CoherentPred)) }
    }

    /// One analysis pass over `text`: extracts its symbols and replaces
    /// both fields of the state together, under a single write
    /// acquisition.
    pub fn update_from_text(&self, text: &str) {
        let (funcs, vars) = extract_symbols(text);
        let new_state = State { custom_funcs: funcs, custom_vars: vars };
        proof {
            use_type_invariant(self);
            assert(new_state.custom_funcs.deep_view() == spec_function_names(spec_lines(text@)));
            assert(coherent(new_state));
        }
        let (_prev, handle) = self.lock.acquire_write();
        handle.release_write(new_state);
    }

    /// One snapshot read, under a single read acquisition. Whatever
    /// analysis passes race with the read, the pair returned is always the
    /// complete extraction result of one single document text.
    pub fn snapshot(&self) -> (s: State)
        ensures
            coherent(s),
    {
        proof {
            use_type_invariant(self);
        }
        let handle = self.lock.acquire_read();
        let stored = handle.borrow();
        let s = State {
            custom_funcs: clone_string_vec(&stored.custom_funcs),
            custom_vars: clone_string_vec(&stored.custom_vars),
        };
        proof {
            let text = choose|text: Seq<char>|
                stored.custom_funcs.deep_view() == spec_function_names(spec_lines(text))
                    && stored.custom_vars.deep_view() == spec_variable_names(spec_lines(text));
            assert(s.custom_funcs.deep_view() == spec_function_names(spec_lines(text)));
            assert(coherent(s));
        }
        handle.release_read();
        s
    }
}

} // verus!
