//! Environments, the registered environment policy, and the bookkeeping the
//! standalone policy and the `use()` context manager do.
//!
//! Environments, cores, outputs and policies are Python objects; here they
//! are type parameters, and this module decides what happens to them.

use std::collections::BTreeMap;
use vstd::prelude::*;

verus! {

broadcast use vstd::std_specs::btree::group_btree_axioms;

/// What went wrong with an environment operation.
#[derive(PartialEq, Eq, Structural, Clone, Copy, Debug)]
pub enum EnvError {
    /// No environment is currently activated.
    NoEnvironment,
    /// The environment was destroyed.
    DeadEnvironment,
    /// A policy is registered already.
    PolicyAlreadyRegistered,
    /// Every registration token was issued.
    RegistrationsExhausted,
    /// No output is registered at this index.
    OutputNotFound(i32),
    /// An index outside the three fields of an output tuple.
    OutputFieldOutOfRange,
}

/// The abstract state of an environment.
pub struct EnvState<C, O> {
    pub alive: bool,
    pub flags: i32,
    pub vs_core: Option<C>,
    pub outputs: Map<i32, O>,
}

/// The state an environment is left in by `destroy`: dead, without a core
/// and without outputs.
pub open spec fn spec_destroy<C, O>(s: EnvState<C, O>) -> EnvState<C, O> {
    EnvState { alive: false, flags: s.flags, vs_core: None, outputs: Map::empty() }
}

/// Per-environment state: whether it is alive, its core (created on first
/// use) and its registered outputs by index.
pub struct EnvironmentData<C, O> {
    alive: bool,
    flags: i32,
    vs_core: Option<C>,
    outputs: BTreeMap<i32, O>,
}

impl<C, O> EnvironmentData<C, O> {
    /// The abstract state.
    pub closed spec fn view(&self) -> EnvState<C, O> {
        EnvState { alive: self.alive, flags: self.flags, vs_core: self.vs_core, outputs: self.outputs@ }
    }

    /// A fresh, alive environment without a core and without outputs.
    pub fn new(flags: i32) -> (e: Self)
        ensures
            e.view() == (EnvState::<C, O> {
                alive: true,
                flags,
                vs_core: None,
                outputs: Map::empty(),
            }),
    {
        EnvironmentData { alive: true, flags, vs_core: None, outputs: BTreeMap::new() }
    }

    /// Whether the environment was not destroyed.
    pub fn alive(&self) -> (b: bool)
        ensures
            b == self.view().alive,
    {
        self.alive
    }

    /// The flags the environment was created with.
    pub fn flags(&self) -> (f: i32)
        ensures
            f == self.view().flags,
    {
        self.flags
    }

    /// The environment's core, if it was created.
    pub fn get_core(&self) -> (c: Option<&C>)
        ensures
            match c {
                Some(c) => self.view().vs_core == Some(*c),
                None => self.view().vs_core is None,
            },
    {
        match &self.vs_core {
            Some(c) => Some(c),
            None => None,
        }
    }

    /// Whether the environment's core was created.
    pub fn has_core(&self) -> (b: bool)
        ensures
            b == self.view().vs_core is Some,
    {
        self.vs_core.is_some()
    }

    /// The environment's core, created with `create` on first use: once a
    /// core is installed, every later call returns it and creates nothing;
    /// when creating fails, the environment stays without a core.
    pub fn get_or_create_core<X, G>(&mut self, create: G) -> (r: Result<&C, X>)
        where
            G: FnOnce() -> Result<C, X>,
        requires
            create.requires(()),
        ensures
            match old(self).view().vs_core {
                Some(c) => {
                    &&& final(self).view() == old(self).view()
                    &&& r matches Ok(got) && *got == c
                },
                None => exists|created: Result<C, X>|
                    {
                        &&& create.ensures((), created)
                        &&& #[trigger] spec_core_outcome(old(self).view(), created) == (
                        final(self).view(),
                        match r {
                            Ok(got) => Ok::<C, X>(*got),
                            Err(e) => Err(e),
                        },
                    )
                    },
            },
    {
        let ghost start = self.view();
        let ghost mut witness: Result<C, X> = arbitrary();
        if self.vs_core.is_none() {
            let created = create();
            proof {
                witness = created;
            }
            match created {
                Ok(c) => {
                    self.vs_core = Some(c);
                },
                Err(e) => {
                    let r: Result<&C, X> = Err(e);
                    assert(spec_core_outcome(start, witness).1 == match r {
                        Ok(got) => Ok::<C, X>(*got),
                        Err(e) => Err(e),
                    });
                    return r;
                },
            }
        }
        let r: Result<&C, X> = match &self.vs_core {
            Some(c) => Ok(c),
            None => vstd::pervasive::unreached(),
        };
        assert(start.vs_core is None ==> spec_core_outcome(start, witness) == (self.view(), match r {
            Ok(got) => Ok::<C, X>(*got),
            Err(e) => Err(e),
        }));
        r
    }

    /// Tears the environment down: it is dead, its outputs are gone and its
    /// core reference is handed back to be dropped.
    pub fn destroy(&mut self) -> (taken: Option<C>)
        ensures
            final(self).view() == spec_destroy(old(self).view()),
            taken == old(self).view().vs_core,
    {
        self.alive = false;
        self.outputs.clear();
        self.vs_core.take()
    }

    /// Registers `output` at `index`, replacing and returning what was there.
    pub fn set_output(&mut self, index: i32, output: O) -> (prev: Option<O>)
        ensures
            final(self).view() == (EnvState {
                outputs: old(self).view().outputs.insert(index, output),
                ..old(self).view()
            }),
            match prev {
                Some(p) => old(self).view().outputs.contains_key(index) && p == old(
                    self,
                ).view().outputs[index],
                None => !old(self).view().outputs.contains_key(index),
            },
    {
        self.outputs.insert(index, output)
    }

    /// The output registered at `index`.
    pub fn output(&self, index: i32) -> (r: Result<&O, EnvError>)
        ensures
            match r {
                Ok(o) => self.view().outputs.contains_key(index) && *o
                    == self.view().outputs[index],
                Err(e) => e == EnvError::OutputNotFound(index) && !self.view().outputs.contains_key(
                    index,
                ),
            },
    {
        match self.outputs.get(&index) {
            Some(o) => Ok(o),
            None => Err(EnvError::OutputNotFound(index)),
        }
    }

    /// Removes the output registered at `index`, if any.
    pub fn remove_output(&mut self, index: i32) -> (prev: Option<O>)
        ensures
            final(self).view() == (EnvState {
                outputs: old(self).view().outputs.remove(index),
                ..old(self).view()
            }),
            match prev {
                Some(p) => old(self).view().outputs.contains_key(index) && p == old(
                    self,
                ).view().outputs[index],
                None => !old(self).view().outputs.contains_key(index),
            },
    {
        self.outputs.remove(&index)
    }

    /// Removes every output.
    pub fn clear_outputs(&mut self)
        ensures
            final(self).view() == (EnvState { outputs: Map::empty(), ..old(self).view() }),
    {
        self.outputs.clear();
    }

    /// The indices that hold an output, in increasing order.
    pub fn output_indices(&self) -> (v: Vec<i32>)
        ensures
            v@.to_set() == self.view().outputs.dom(),
            v@.no_duplicates(),
            forall|i: int, j: int| 0 <= i < j < v@.len() ==> v@[i] < v@[j],
    {
        proof {
            lemma_i32_keys_are_ordered();
        }
        let ghost keys = vstd::std_specs::iter::IteratorSpec::remaining(
            &vstd::std_specs::btree::spec_keys_iter(&self.outputs),
        );
        let mut v: Vec<i32> = Vec::new();
        for k in it: self.outputs.keys()
            invariant
                it.seq() == keys,
                v@ == keys.take(it.index() as int).unref(),
        {
            assert(keys.take(it.index() + 1).unref() =~= keys.take(it.index() as int).unref().push(
                *k,
            ));
            v.push(*k);
        }
        assert(keys.take(keys.len() as int) =~= keys);
        proof {
            lemma_increasing_keys(keys);
        }
        v
    }
}

/// `BTreeMap`'s specification holds for `i32` keys.
proof fn lemma_i32_keys_are_ordered()
    ensures
        vstd::std_specs::btree::key_obeys_cmp_spec::<i32>(),
{
    broadcast use vstd::laws_cmp::group_laws_cmp;
    broadcast use vstd::std_specs::btree::axiom_key_obeys_cmp_spec_meaning;

}

/// Keys a `BTreeMap` yields in increasing order are increasing integers.
proof fn lemma_increasing_keys(keys: Seq<&i32>)
    requires
        vstd::std_specs::btree::increasing_seq(keys),
    ensures
        forall|i: int, j: int| 0 <= i < j < keys.len() ==> *keys[i] < *keys[j],
{
    broadcast use vstd::laws_cmp::group_laws_cmp;
    broadcast use vstd::std_specs::btree::axiom_increasing_seq_meaning;

    assert forall|i: int, j: int| 0 <= i < j < keys.len() implies *keys[i] < *keys[j] by {
        assert(vstd::std_specs::cmp::OrdSpec::cmp_spec(&keys[i], &keys[j]) is Less);
    }
}

/// Destroying an environment twice leaves it as destroying it once.
pub proof fn destroy_is_idempotent<C, O>(s: EnvState<C, O>)
    ensures
        spec_destroy(spec_destroy(s)) == spec_destroy(s),
{
    assert(spec_destroy(spec_destroy(s)).outputs =~= spec_destroy(s).outputs);
}

/// Reading an output right after registering it gives it back; other
/// indices are untouched.
pub proof fn output_read_after_store<C, O>(s: EnvState<C, O>, index: i32, output: O, other: i32)
    requires
        other != index,
    ensures
        ({
            let t = EnvState { outputs: s.outputs.insert(index, output), ..s };
            &&& t.outputs.contains_key(index)
            &&& t.outputs[index] == output
            &&& t.outputs.contains_key(other) == s.outputs.contains_key(other)
            &&& s.outputs.contains_key(other) ==> t.outputs[other] == s.outputs[other]
        }),
{
}

/// The state and the result of asking an environment in state `s` for its
/// core, where `created` is what creating one would give: an existing core
/// is returned as it is; else a created core is installed and returned, and
/// a failure leaves the state unchanged.
pub open spec fn spec_core_outcome<C, O, X>(s: EnvState<C, O>, created: Result<C, X>) -> (
    EnvState<C, O>,
    Result<C, X>,
) {
    match s.vs_core {
        Some(c) => (s, Ok(c)),
        None => match created {
            Ok(c) => (EnvState { vs_core: Some(c), ..s }, Ok(c)),
            Err(e) => (s, Err(e)),
        },
    }
}

/// A core is created at most once: after a call that returned a core, every
/// later call returns that same core and changes nothing, whatever creating
/// a core would give.
pub proof fn core_is_created_once<C, O, X>(
    s: EnvState<C, O>,
    first: Result<C, X>,
    later: Result<C, X>,
)
    requires
        spec_core_outcome(s, first).1 is Ok,
    ensures
        ({
            let (after, got) = spec_core_outcome(s, first);
            spec_core_outcome(after, later) == (after, got)
        }),
{
}

/// The slot that holds the registered environment policy, if any.
pub struct PolicyRegistry<P> {
    policy: Option<P>,
    token: u64,
    issued: u64,
}

/// The state of a policy registry: the registered policy, the token of its
/// registration, and the number of registrations so far.
pub struct RegistryState<P> {
    pub policy: Option<P>,
    pub token: u64,
    pub issued: u64,
}

impl<P> PolicyRegistry<P> {
    /// The abstract state.
    pub closed spec fn view(&self) -> RegistryState<P> {
        RegistryState { policy: self.policy, token: self.token, issued: self.issued }
    }

    /// The registry's invariant: a registration's token was issued.
    pub open spec fn wf(&self) -> bool {
        self.view().policy is Some ==> self.view().token < self.view().issued
    }

    /// A registry without a policy.
    pub fn new() -> (r: Self)
        ensures
            r.wf(),
            r.view().policy is None,
            r.view().issued == 0,
    {
        PolicyRegistry { policy: None, token: 0, issued: 0 }
    }

    /// Registers `policy` and returns the token of this registration, by
    /// which the policy can later unregister itself; fails, leaving the
    /// registry unchanged, when a policy is registered already, or when
    /// every token was issued.
    pub fn register(&mut self, policy: P) -> (r: Result<u64, EnvError>)
        requires
            old(self).wf(),
        ensures
            final(self).wf(),
            final(self).view() == spec_register(old(self).view(), policy),
            r == if old(self).view().policy is Some {
                Err(EnvError::PolicyAlreadyRegistered)
            } else if old(self).view().issued == u64::MAX {
                Err(EnvError::RegistrationsExhausted)
            } else {
                Ok::<u64, EnvError>(old(self).view().issued)
            },
    {
        if self.policy.is_some() {
            return Err(EnvError::PolicyAlreadyRegistered);
        }
        if self.issued == u64::MAX {
            return Err(EnvError::RegistrationsExhausted);
        }
        let token = self.issued;
        self.policy = Some(policy);
        self.token = token;
        self.issued = token + 1;
        Ok(token)
    }

    /// Unregisters whatever policy is registered, handing it back for its
    /// teardown.
    pub fn clear(&mut self) -> (old_policy: Option<P>)
        requires
            old(self).wf(),
        ensures
            final(self).wf(),
            old_policy == old(self).view().policy,
            final(self).view() == spec_clear(old(self).view()),
    {
        self.policy.take()
    }

    /// Unregisters the policy of registration `token`, handing it back for
    /// its teardown; a policy registered by another registration stays.
    pub fn clear_own(&mut self, token: u64) -> (old_policy: Option<P>)
        requires
            old(self).wf(),
        ensures
            final(self).wf(),
            final(self).view() == spec_clear_own(old(self).view(), token),
            old_policy == if old(self).view().token == token {
                old(self).view().policy
            } else {
                None
            },
    {
        if self.token == token {
            self.policy.take()
        } else {
            None
        }
    }

    /// Whether a policy is registered.
    pub fn has_policy(&self) -> (b: bool)
        ensures
            b == self.view().policy is Some,
    {
        self.policy.is_some()
    }

    /// The registered policy.
    pub fn current(&self) -> (r: Option<&P>)
        ensures
            match r {
                Some(p) => self.view().policy == Some(*p),
                None => self.view().policy is None,
            },
    {
        match &self.policy {
            Some(p) => Some(p),
            None => None,
        }
    }
}

/// The registry after registering `policy`: when it was empty and a token
/// is left, it holds `policy` under the next token; otherwise it is
/// unchanged.
pub open spec fn spec_register<P>(s: RegistryState<P>, policy: P) -> RegistryState<P> {
    if s.policy is None && s.issued < u64::MAX {
        RegistryState { policy: Some(policy), token: s.issued, issued: (s.issued + 1) as u64 }
    } else {
        s
    }
}

/// The registry after unregistering whatever policy is registered.
pub open spec fn spec_clear<P>(s: RegistryState<P>) -> RegistryState<P> {
    RegistryState { policy: None, ..s }
}

/// The registry after registration `token` unregisters its policy: empty
/// when that registration is the current one, unchanged otherwise.
pub open spec fn spec_clear_own<P>(s: RegistryState<P>, token: u64) -> RegistryState<P> {
    if s.token == token {
        RegistryState { policy: None, ..s }
    } else {
        s
    }
}

/// Registering on an empty registry installs the policy, and a second
/// registration leaves the first policy in place.
pub proof fn first_registration_wins<P>(s: RegistryState<P>, policy: P, other: P)
    requires
        s.policy is None,
        s.issued < u64::MAX,
    ensures
        spec_register(s, policy).policy == Some(policy),
        spec_register(spec_register(s, policy), other) == spec_register(s, policy),
{
}

/// A policy that unregisters itself removes only its own registration: once
/// it was unregistered, by itself or otherwise, and another policy was
/// registered in its place, the first policy's token leaves the new policy
/// registered.
pub proof fn own_unregistration_spares_later_policy<P>(
    s: RegistryState<P>,
    first: P,
    second: P,
    cleared_by_owner: bool,
)
    requires
        s.policy is None,
        s.issued < u64::MAX - 1,
    ensures
        ({
            let registered = spec_register(s, first);
            let token = registered.token;
            let cleared = if cleared_by_owner {
                spec_clear_own(registered, token)
            } else {
                spec_clear(registered)
            };
            let replaced = spec_register(cleared, second);
            &&& registered.policy == Some(first)
            &&& cleared.policy is None
            &&& replaced.policy == Some(second)
            &&& spec_clear_own(replaced, token) == replaced
        }),
{
}

/// The environments a policy's API created, so that unregistering the
/// policy can destroy them.
pub struct KnownEnvironments<E> {
    known: Vec<E>,
}

impl<E> KnownEnvironments<E> {
    /// The environments, in creation order.
    pub closed spec fn view(&self) -> Seq<E> {
        self.known@
    }

    /// No environments yet.
    pub fn new() -> (k: Self)
        ensures
            k.view() == Seq::<E>::empty(),
    {
        KnownEnvironments { known: Vec::new() }
    }

    /// Records a newly created environment.
    pub fn add(&mut self, env: E)
        ensures
            final(self).view() == old(self).view().push(env),
    {
        self.known.push(env);
    }

    /// Hands every recorded environment over, in creation order, forgetting
    /// them.
    pub fn take_all(&mut self) -> (all: Vec<E>)
        ensures
            all@ == old(self).view(),
            final(self).view() == Seq::<E>::empty(),
    {
        let mut all: Vec<E> = Vec::new();
        std::mem::swap(&mut all, &mut self.known);
        all
    }
}

/// The default policy's state: the one environment it always reports as
/// current, and the API it was registered with.
pub struct StandaloneState<E, A> {
    environment: Option<E>,
    api: Option<A>,
}

impl<E, A> StandaloneState<E, A> {
    /// The environment the policy holds.
    pub closed spec fn spec_environment(&self) -> Option<E> {
        self.environment
    }

    /// The API the policy holds.
    pub closed spec fn spec_api(&self) -> Option<A> {
        self.api
    }

    /// A policy that was not registered yet.
    pub fn empty() -> (s: Self)
        ensures
            s.spec_environment() is None,
            s.spec_api() is None,
    {
        StandaloneState { environment: None, api: None }
    }

    /// On registration the policy keeps the environment it created and the API.
    pub fn registered(&mut self, env: E, api: A)
        ensures
            final(self).spec_environment() == Some(env),
            final(self).spec_api() == Some(api),
    {
        self.environment = Some(env);
        self.api = Some(api);
    }

    /// On clearing the policy lets go of both; when it held both, the
    /// environment is handed back with the API, to be destroyed through it.
    pub fn cleared(&mut self) -> (r: Option<(A, E)>)
        ensures
            final(self).spec_environment() is None,
            final(self).spec_api() is None,
            match (old(self).spec_api(), old(self).spec_environment()) {
                (Some(a), Some(e)) => r == Some((a, e)),
                _ => r is None,
            },
    {
        let api = self.api.take();
        let env = self.environment.take();
        match (api, env) {
            (Some(a), Some(e)) => Some((a, e)),
            _ => None,
        }
    }

    /// The current environment: always the one the policy holds, whatever
    /// environment is asked to be set.
    pub fn current(&self) -> (r: Option<&E>)
        ensures
            match r {
                Some(e) => self.spec_environment() == Some(*e),
                None => self.spec_environment() is None,
            },
    {
        match &self.environment {
            Some(e) => Some(e),
            None => None,
        }
    }
}

/// The abstract state of a `use()` context manager.
pub struct SwitchState<E> {
    /// The environment still to activate.
    pub target: Option<E>,
    /// The environment to restore.
    pub previous: Option<E>,
}

/// Entering a `use()` block with `current` the current environment: the
/// target is handed over (once) and `current` remembered.
pub open spec fn spec_enter<E>(s: SwitchState<E>, current: Option<E>) -> (SwitchState<E>, Option<E>) {
    (SwitchState { target: None, previous: current }, s.target)
}

/// Leaving a `use()` block: the remembered environment is handed over (once).
pub open spec fn spec_take_previous<E>(s: SwitchState<E>) -> (SwitchState<E>, Option<E>) {
    (SwitchState { target: s.target, previous: None }, s.previous)
}

/// The environment to restore: the remembered one while it is alive.
pub open spec fn spec_restore<E>(previous: Option<E>, previous_alive: bool) -> Option<E> {
    if previous is Some && previous_alive {
        previous
    } else {
        None
    }
}

/// The `use()` context manager: activates `target` on entry and restores the
/// environment that was current before on exit.
pub struct EnvironmentSwitch<E> {
    target: Option<E>,
    previous: Option<E>,
}

impl<E> EnvironmentSwitch<E> {
    /// The abstract state.
    pub closed spec fn view(&self) -> SwitchState<E> {
        SwitchState { target: self.target, previous: self.previous }
    }

    /// A switch to `target`, to be entered.
    pub fn new(target: E) -> (s: Self)
        ensures
            s.view() == (SwitchState { target: Some(target), previous: None }),
    {
        EnvironmentSwitch { target: Some(target), previous: None }
    }

    /// Entering: remembers the environment current now, and hands over the
    /// environment to activate (once).
    pub fn enter(&mut self, current: Option<E>) -> (activate: Option<E>)
        ensures
            (final(self).view(), activate) == spec_enter(old(self).view(), current),
    {
        self.previous = current;
        self.target.take()
    }

    /// Leaving: hands over the remembered environment (once), to be checked
    /// for being alive.
    pub fn take_previous(&mut self) -> (prev: Option<E>)
        ensures
            (final(self).view(), prev) == spec_take_previous(old(self).view()),
    {
        self.previous.take()
    }
}

/// The environment to restore on leaving a `use()` block: the previous one
/// while it is alive, else none.
pub fn restore_target<E>(previous: Option<E>, previous_alive: bool) -> (r: Option<E>)
    ensures
        r == spec_restore(previous, previous_alive),
{
    match previous {
        Some(p) if previous_alive => Some(p),
        _ => None,
    }
}

/// A `use()` block activates its target on entry and, on exit, restores the
/// environment that was current on entry when that one is still alive (and
/// no environment otherwise).
pub proof fn use_block_restores_previous<E>(target: E, current: Option<E>, alive: bool)
    ensures
        ({
            let s0 = SwitchState { target: Some(target), previous: None };
            let (s1, activate) = spec_enter(s0, current);
            let (s2, prev) = spec_take_previous(s1);
            &&& activate == Some(target)
            &&& prev == current
            &&& spec_restore(prev, alive) == if alive {
                current
            } else {
                None
            }
        }),
{
}

/// Whether the script runs outside any vsscript environment: no policy is
/// registered, or the registered one is the standalone policy.
pub fn is_single(has_policy: bool, policy_is_standalone: bool) -> (b: bool)
    ensures
        b == (!has_policy || policy_is_standalone),
{
    !has_policy || policy_is_standalone
}

/// An environment's id: -1 in the single environment, else its address.
pub fn env_id(single: bool, address: i64) -> (id: i64)
    ensures
        id == if single {
            -1i64
        } else {
            address
        },
{
    if single {
        -1
    } else {
        address
    }
}

/// How an environment describes itself.
#[derive(PartialEq, Eq, Structural, Clone, Copy, Debug)]
pub enum EnvDescription {
    /// The single, default environment.
    Default,
    /// A destroyed environment.
    Dead,
    /// An alive environment that is not current.
    Alive,
    /// The current environment.
    Active,
}

/// Describes an environment: the default one, else dead, active or alive.
pub fn describe(single: bool, alive: bool, active: bool) -> (d: EnvDescription)
    ensures
        d == if single {
            EnvDescription::Default
        } else if !alive {
            EnvDescription::Dead
        } else if active {
            EnvDescription::Active
        } else {
            EnvDescription::Alive
        },
{
    if single {
        EnvDescription::Default
    } else if !alive {
        EnvDescription::Dead
    } else if active {
        EnvDescription::Active
    } else {
        EnvDescription::Alive
    }
}

/// `use()` is refused on a dead environment.
pub fn check_usable(alive: bool) -> (r: Result<(), EnvError>)
    ensures
        r == if alive {
            Ok::<(), EnvError>(())
        } else {
            Err(EnvError::DeadEnvironment)
        },
{
    if alive {
        Ok(())
    } else {
        Err(EnvError::DeadEnvironment)
    }
}

/// The current environment, or the error that none is activated.
pub fn require_current<E>(current: Option<E>) -> (r: Result<E, EnvError>)
    ensures
        match current {
            Some(e) => r == Ok::<E, EnvError>(e),
            None => r == Err::<E, EnvError>(EnvError::NoEnvironment),
        },
{
    match current {
        Some(e) => Ok(e),
        None => Err(EnvError::NoEnvironment),
    }
}

/// The fields of a registered output, which reads as the tuple
/// `(clip, alpha, alt_output)`.
#[derive(PartialEq, Eq, Structural, Clone, Copy, Debug)]
pub enum OutputField {
    Clip,
    Alpha,
    AltOutput,
}

/// Number of fields of an output tuple.
pub const OUTPUT_FIELDS: usize = 3;

/// The field `output[idx]` reads, with Python's tuple indexing: negative
/// indices count from the end.
pub fn output_field(idx: isize) -> (r: Result<OutputField, EnvError>)
    ensures
        ({
            let i = if idx < 0 {
                idx + 3
            } else {
                idx as int
            };
            r == if i == 0 {
                Ok::<OutputField, EnvError>(OutputField::Clip)
            } else if i == 1 {
                Ok(OutputField::Alpha)
            } else if i == 2 {
                Ok(OutputField::AltOutput)
            } else {
                Err(EnvError::OutputFieldOutOfRange)
            }
        }),
{
    let i: isize = if idx < 0 {
        idx + 3
    } else {
        idx
    };
    if i == 0 {
        Ok(OutputField::Clip)
    } else if i == 1 {
        Ok(OutputField::Alpha)
    } else if i == 2 {
        Ok(OutputField::AltOutput)
    } else {
        Err(EnvError::OutputFieldOutOfRange)
    }
}

} // verus!
