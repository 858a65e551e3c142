//! Window classes and the registry that shares them.
//!
//! A window class is a native definition that windows are created from. The
//! registry hands out shares in a registration: a class is registered with
//! the native system when the first share is asked for, every later request
//! for the same name joins that registration, and the class is unregistered
//! when its last share comes back.
//!
//! The registry decides; it never calls the native system itself. A request
//! that finds no live registration answers [`ClassRequest::MustRegister`]:
//! the caller registers the class natively and reports the outcome with
//! [`WindowClass::register`], all while holding the lock that guards the
//! registry.

use vstd::prelude::*;

use crate::errors::Error;
use crate::strings::{decimal, to_wide, wide_units};
use crate::types::ResourceId;

verus! {

/// A live registration: which one it is, and how many shares are out.
pub struct LiveClass {
    /// The number of registrations that had been performed before this one.
    pub serial: nat,
    /// The number of shares that have been handed out and not returned.
    pub strong: nat,
}

/// What a registry holds, as plain mathematical values.
pub struct RegistryState {
    /// The live registrations by class name.
    pub live: Map<Seq<u16>, LiveClass>,
    /// The number of native registrations performed so far.
    pub registrations: nat,
}

impl RegistryState {
    /// A registry in which nothing has been registered.
    pub open spec fn empty() -> RegistryState {
        RegistryState { live: Map::empty(), registrations: 0 }
    }

    /// Every live registration has at least one share out and was counted
    /// when it was performed.
    pub open spec fn wf(self) -> bool {
        forall|name: Seq<u16>| #[trigger]
            self.live.contains_key(name) ==> self.live[name].strong > 0 && self.live[name].serial
                < self.registrations
    }

    /// Whether a registration under `name` is live.
    pub open spec fn is_live(self, name: Seq<u16>) -> bool {
        self.live.contains_key(name)
    }

    /// The number of shares out for `name`; zero if it is not registered.
    pub open spec fn strong(self, name: Seq<u16>) -> nat {
        if self.live.contains_key(name) {
            self.live[name].strong
        } else {
            0
        }
    }

    /// The state after one more share of the live registration `name` has
    /// been handed out.
    pub open spec fn shared(self, name: Seq<u16>) -> RegistryState {
        RegistryState {
            live: self.live.insert(
                name,
                LiveClass { strong: self.live[name].strong + 1, ..self.live[name] },
            ),
            ..self
        }
    }

    /// The state after `name` has been registered anew and its first share
    /// handed out.
    pub open spec fn registered(self, name: Seq<u16>) -> RegistryState {
        RegistryState {
            live: self.live.insert(name, LiveClass { serial: self.registrations, strong: 1 }),
            registrations: self.registrations + 1,
        }
    }

    /// The state after one share of the live registration `name` has come
    /// back. With the last share the registration ends.
    pub open spec fn released(self, name: Seq<u16>) -> RegistryState {
        if self.live[name].strong > 1 {
            RegistryState {
                live: self.live.insert(
                    name,
                    LiveClass { strong: (self.live[name].strong - 1) as nat, ..self.live[name] },
                ),
                ..self
            }
        } else {
            RegistryState { live: self.live.remove(name), ..self }
        }
    }
}

/// The text of a class name: the prefix alone, or the prefix, a hyphen and
/// the icon's identifier in decimal.
pub open spec fn class_name_of(prefix: Seq<char>, icon_id: Option<ResourceId>) -> Seq<char> {
    match icon_id {
        Some(icon) => prefix + seq!['-'] + decimal(icon.0 as int),
        None => prefix,
    }
}

/// Builds the text of the class name for `class_name_prefix` and `icon_id`.
pub fn class_name(class_name_prefix: &str, icon_id: Option<ResourceId>) -> (name: String)
    ensures
        name@ == class_name_of(class_name_prefix@, icon_id),
{
    let mut name = class_name_prefix.to_owned();
    if let Some(icon) = icon_id {
        let digits = icon.to_string();
        name.append("-");
        name.append(digits.as_str());
        proof {
            reveal_strlit("-");
            assert("-"@ =~= seq!['-']);
        }
    }
    name
}

/// Builds the registry key for `class_name_prefix` and `icon_id`: the class
/// name as wide code units. Names with an interior nul have no key.
pub fn class_key(class_name_prefix: &str, icon_id: Option<ResourceId>) -> (key: Option<Vec<u16>>)
    ensures
        match key {
            Some(k) => wide_units(class_name_of(class_name_prefix@, icon_id)) == Some(k@),
            None => wide_units(class_name_of(class_name_prefix@, icon_id)) is None,
        },
{
    let name = class_name(class_name_prefix, icon_id);
    to_wide(name.as_str())
}

/// Compares two runs of code units.
fn same_units(a: &Vec<u16>, b: &Vec<u16>) -> (same: bool)
    ensures
        same == (a@ == b@),
{
    if a.len() != b.len() {
        return false;
    }
    let mut i: usize = 0;
    while i < a.len()
        invariant
            i <= a.len(),
            a.len() == b.len(),
            forall|j: int| 0 <= j < i ==> a@[j] == b@[j],
        decreases a.len() - i,
    {
        if a[i] != b[i] {
            return false;
        }
        i += 1;
    }
    assert(a@ =~= b@);
    true
}

/// Copies a run of code units.
fn copy_units(units: &Vec<u16>) -> (copy: Vec<u16>)
    ensures
        copy@ == units@,
{
    let mut copy: Vec<u16> = Vec::new();
    let mut i: usize = 0;
    while i < units.len()
        invariant
            i <= units.len(),
            copy@ == units@.subrange(0, i as int),
        decreases units.len() - i,
    {
        copy.push(units[i]);
        assert(copy@ =~= units@.subrange(0, i + 1));
        i += 1;
    }
    assert(copy@ =~= units@);
    copy
}

/// A share in one registered window class. The class stays registered while
/// any share of it is out.
#[derive(Debug)]
pub struct WindowClass {
    class_name: Vec<u16>,
    serial: u64,
}

/// The answer to a request for a window class.
#[derive(Debug)]
pub enum ClassRequest {
    /// The class was registered already; here is one more share of it.
    Shared(WindowClass),
    /// No registration of the class is live. The class has to be registered
    /// natively under this name, and the outcome reported with
    /// [`WindowClass::register`].
    MustRegister(Vec<u16>),
}

/// One slot of the registry: a class name and the registration under it.
struct Registration {
    class_name: Vec<u16>,
    serial: u64,
    /// Shares that are out. Zero marks a slot whose registration has ended.
    strong: usize,
}

/// Deduplicating registry of window class registrations, keyed by class name.
pub struct ClassRegistry {
    entries: Vec<Registration>,
    next_serial: u64,
}

impl View for ClassRegistry {
    type V = RegistryState;

    closed spec fn view(&self) -> RegistryState {
        RegistryState {
            live: Map::new(
                |name: Seq<u16>| self.live_slot(name) is Some,
                |name: Seq<u16>|
                    LiveClass {
                        serial: self.entries[self.live_slot(name).unwrap()].serial as nat,
                        strong: self.entries[self.live_slot(name).unwrap()].strong as nat,
                    },
            ),
            registrations: self.next_serial as nat,
        }
    }
}

impl ClassRegistry {
    /// The class names of the slots, in slot order.
    spec fn names(&self) -> Seq<Seq<u16>> {
        Seq::new(self.entries.len() as nat, |i: int| self.entries[i].class_name@)
    }

    /// The slot that holds a live registration of `name`.
    spec fn live_slot(&self, name: Seq<u16>) -> Option<int> {
        match self.names().index_of_first(name) {
            Some(i) => if self.entries[i].strong > 0 {
                Some(i)
            } else {
                None
            },
            None => None,
        }
    }

    /// The registry's invariant: no class name has two slots, and every
    /// registration was counted when it was performed.
    pub closed spec fn wf(&self) -> bool {
        &&& forall|i: int, j: int|
            0 <= i < j < self.entries.len() ==> self.entries[i].class_name@
                != self.entries[j].class_name@
        &&& forall|i: int|
            0 <= i < self.entries.len() ==> (#[trigger] self.entries[i]).serial < self.next_serial
    }

    /// A slot is found under its own name.
    proof fn lemma_slot(&self, i: int)
        requires
            self.wf(),
            0 <= i < self.entries.len(),
        ensures
            self.names().index_of_first(self.entries[i].class_name@) == Some(i),
    {
        let names = self.names();
        let name = self.entries[i].class_name@;
        names.index_of_first_ensures(name);
        assert(names[i] == name);
        assert(names.contains(name));
        let found = names.index_of_first(name).unwrap();
        assert(names[found] == self.entries[found].class_name@);
        if found < i {
            assert(self.entries[found].class_name@ != self.entries[i].class_name@);
        } else if i < found {
            assert(self.entries[i].class_name@ != self.entries[found].class_name@);
        }
    }

    /// A name that no slot carries is found nowhere.
    proof fn lemma_absent(&self, name: Seq<u16>)
        requires
            forall|i: int| 0 <= i < self.entries.len() ==> self.entries[i].class_name@ != name,
        ensures
            self.names().index_of_first(name) is None,
    {
        let names = self.names();
        names.index_of_first_ensures(name);
        if names.contains(name) {
            let i = names.index_of_first(name).unwrap();
            assert(names[i] == self.entries[i].class_name@);
        }
    }

    /// The view of a well-formed registry is well formed.
    proof fn lemma_view_wf(&self)
        requires
            self.wf(),
        ensures
            self@.wf(),
    {
        assert forall|name: Seq<u16>| #[trigger] self@.live.contains_key(name) implies self@.live[name].strong
            > 0 && self@.live[name].serial < self@.registrations by {
            self.names().index_of_first_ensures(name);
        }
    }

    /// A registry in which nothing has been registered.
    pub fn new() -> (registry: ClassRegistry)
        ensures
            registry.wf(),
            registry@.wf(),
            registry@ == RegistryState::empty(),
    {
        let registry = ClassRegistry { entries: Vec::new(), next_serial: 0 };
        proof {
            assert forall|name: Seq<u16>| registry.live_slot(name) is None by {
                registry.lemma_absent(name);
            }
            assert(registry@.live =~= Map::<Seq<u16>, LiveClass>::empty());
        }
        registry
    }

    /// Finds the slot that carries `key`.
    fn find(&self, key: &Vec<u16>) -> (slot: Option<usize>)
        requires
            self.wf(),
        ensures
            match slot {
                Some(i) => i < self.entries.len() && self.names().index_of_first(key@) == Some(
                    i as int,
                ) && self.entries[i as int].class_name@ == key@,
                None => self.names().index_of_first(key@) is None,
            },
    {
        let mut i: usize = 0;
        while i < self.entries.len()
            invariant
                i <= self.entries.len(),
                self.wf(),
                forall|j: int| 0 <= j < i ==> self.entries[j].class_name@ != key@,
            decreases self.entries.len() - i,
        {
            if same_units(&self.entries[i].class_name, key) {
                proof {
                    self.lemma_slot(i as int);
                }
                return Some(i);
            }
            i += 1;
        }
        proof {
            self.lemma_absent(key@);
        }
        None
    }

    /// Tells whether a registration under `key` is live.
    pub fn is_registered(&self, key: &Vec<u16>) -> (live: bool)
        requires
            self.wf(),
        ensures
            live == self@.is_live(key@),
    {
        match self.find(key) {
            Some(i) => self.entries[i].strong > 0,
            None => false,
        }
    }

    /// Tells whether `class` is a share of a registration that is live in
    /// this registry.
    pub fn holds(&self, class: &WindowClass) -> (held: bool)
        requires
            self.wf(),
        ensures
            held == class.shares_in(self@),
    {
        match self.find(&class.class_name) {
            Some(i) => self.entries[i].strong > 0 && self.entries[i].serial == class.serial,
            None => false,
        }
    }

    /// The number of native registrations performed so far.
    pub fn registrations(&self) -> (count: u64)
        ensures
            count == self@.registrations,
    {
        self.next_serial
    }

    /// The number of shares that are out for `key`.
    pub fn strong_count(&self, key: &Vec<u16>) -> (count: usize)
        requires
            self.wf(),
        ensures
            count == self@.strong(key@),
    {
        match self.find(key) {
            Some(i) => self.entries[i].strong,
            None => 0,
        }
    }

    /// Answers a request for the class named `key`: one more share of the
    /// live registration if there is one, else the order to register.
    fn request(&mut self, key: Vec<u16>) -> (request: ClassRequest)
        requires
            old(self).wf(),
            old(self)@.strong(key@) < usize::MAX,
        ensures
            final(self).wf(),
            final(self)@.wf(),
            match request {
                ClassRequest::Shared(class) => {
                    &&& old(self)@.is_live(key@)
                    &&& final(self)@ == old(self)@.shared(key@)
                    &&& class.name() == key@
                    &&& class.shares_in(final(self)@)
                },
                ClassRequest::MustRegister(name) => {
                    &&& !old(self)@.is_live(key@)
                    &&& final(self)@ == old(self)@
                    &&& name@ == key@
                },
            },
    {
        match self.find(&key) {
            Some(i) => {
                if self.entries[i].strong > 0 {
                    let serial = self.entries[i].serial;
                    let strong = self.entries[i].strong;
                    let name = copy_units(&key);
                    self.entries[i] = Registration { class_name: name, serial, strong: strong + 1 };
                    proof {
                        assert(self.names() =~= old(self).names());
                        let target = old(self)@.shared(key@).live;
                        assert forall|name: Seq<u16>|
                            (#[trigger] self@.live.dom().contains(name)) == target.dom().contains(name) && (
                            self@.live.dom().contains(name) ==> self@.live[name] == target[name]) by {
                            old(self).names().index_of_first_ensures(name);
                            assert(self.live_slot(name) == old(self).live_slot(name));
                        }
                        assert(self@.live =~= target);
                    }
                    proof {
                        self.lemma_view_wf();
                    }
                    ClassRequest::Shared(WindowClass { class_name: key, serial })
                } else {
                    proof {
                        self.lemma_view_wf();
                    }
                    ClassRequest::MustRegister(key)
                }
            },
            None => {
                proof {
                    self.lemma_view_wf();
                }
                ClassRequest::MustRegister(key)
            },
        }
    }

    /// Records a fresh native registration under `key` and hands out its
    /// first share.
    fn insert(&mut self, key: Vec<u16>) -> (class: WindowClass)
        requires
            old(self).wf(),
            !old(self)@.is_live(key@),
            old(self)@.registrations < u64::MAX,
        ensures
            final(self).wf(),
            final(self)@.wf(),
            final(self)@ == old(self)@.registered(key@),
            class.name() == key@,
            class.shares_in(final(self)@),
    {
        let serial = self.next_serial;
        let name = copy_units(&key);
        let found = self.find(&key);
        self.next_serial = serial + 1;
        match found {
            Some(i) => {
                self.entries[i] = Registration { class_name: name, serial, strong: 1 };
                proof {
                    assert(self.names() =~= old(self).names());
                    self.lemma_slot(i as int);
                    assert forall|name: Seq<u16>| name != key@ implies self.live_slot(name) == old(
                        self,
                    ).live_slot(name) by {
                        old(self).names().index_of_first_ensures(name);
                    }
                }
            },
            None => {
                self.entries.push(Registration { class_name: name, serial, strong: 1 });
                proof {
                    let last = old(self).entries.len() as int;
                    assert forall|i: int, j: int| 0 <= i < j < self.entries.len() implies self.entries[i].class_name@
                        != self.entries[j].class_name@ by {
                        old(self).names().index_of_first_ensures(key@);
                        if j == last {
                            assert(old(self).names()[i] == old(self).entries[i].class_name@);
                        }
                    }
                    assert(self.wf());
                    self.lemma_slot(last);
                    assert forall|name: Seq<u16>| name != key@ implies self.live_slot(name) == old(
                        self,
                    ).live_slot(name) by {
                        old(self).names().index_of_first_ensures(name);
                        self.names().index_of_first_ensures(name);
                        match old(self).names().index_of_first(name) {
                            Some(k) => {
                                assert(old(self).names()[k] == old(self).entries[k].class_name@);
                                self.lemma_slot(k);
                            },
                            None => {
                                if self.names().index_of_first(name) is Some {
                                    let k = self.names().index_of_first(name).unwrap();
                                    assert(self.names()[k] == self.entries[k].class_name@);
                                    assert(k < last);
                                    assert(old(self).names()[k] == name);
                                    assert(old(self).names().contains(name));
                                }
                            },
                        }
                    }
                }
            },
        }
        proof {
            let target = old(self)@.registered(key@).live;
            assert forall|name: Seq<u16>|
                (#[trigger] self@.live.dom().contains(name)) == target.dom().contains(name) && (
                self@.live.dom().contains(name) ==> self@.live[name] == target[name]) by {
                old(self).names().index_of_first_ensures(name);
                self.names().index_of_first_ensures(name);
                if name != key@ {
                    assert(self.live_slot(name) == old(self).live_slot(name));
                    if self.live_slot(name) is Some {
                        let k = self.live_slot(name).unwrap();
                        assert(self.names()[k] == self.entries[k].class_name@);
                    }
                }
            }
            assert(self@.live =~= target);
            self.lemma_view_wf();
        }
        WindowClass { class_name: key, serial }
    }

    /// Takes back one share. Tells whether it was the last one, in which
    /// case the registration has ended and the class must be unregistered
    /// natively.
    fn release(&mut self, class: WindowClass) -> (last: bool)
        requires
            old(self).wf(),
            class.shares_in(old(self)@),
        ensures
            final(self).wf(),
            final(self)@.wf(),
            final(self)@ == old(self)@.released(class.name()),
            last == !final(self)@.is_live(class.name()),
            last == (old(self)@.strong(class.name()) == 1),
    {
        let found = self.find(&class.class_name);
        match found {
            Some(i) => {
                let serial = self.entries[i].serial;
                let strong = self.entries[i].strong;
                self.entries[i] = Registration {
                    class_name: class.class_name,
                    serial,
                    strong: strong - 1,
                };
                proof {
                    assert(self.names() =~= old(self).names());
                    self.lemma_slot(i as int);
                    let target = old(self)@.released(class.name()).live;
                    assert forall|name: Seq<u16>|
                        (#[trigger] self@.live.dom().contains(name)) == target.dom().contains(name) && (
                        self@.live.dom().contains(name) ==> self@.live[name] == target[name]) by {
                        old(self).names().index_of_first_ensures(name);
                        if name != class.name() {
                            assert(self.live_slot(name) == old(self).live_slot(name));
                            if self.live_slot(name) is Some {
                                let k = self.live_slot(name).unwrap();
                                assert(self.names()[k] == self.entries[k].class_name@);
                            }
                        }
                    }
                    assert(self@.live =~= target);
                    self.lemma_view_wf();
                }
                strong == 1
            },
            None => {
                proof {
                    assert(false);
                }
                false
            },
        }
    }
}

impl WindowClass {
    /// The class name, as wide code units without the terminator.
    pub closed spec fn name(&self) -> Seq<u16> {
        self.class_name@
    }

    /// Which registration this is a share of.
    pub closed spec fn serial(&self) -> nat {
        self.serial as nat
    }

    /// Whether this is a share of a registration that is live in `registry`.
    pub open spec fn shares_in(&self, registry: RegistryState) -> bool {
        registry.is_live(self.name()) && registry.live[self.name()].serial == self.serial()
    }

    /// Gets a share of an existing window class registration, or the order
    /// to register the class for the first time.
    ///
    /// The class name is made from `class_name_prefix` and `icon_id`; it
    /// must have a wide form (see [`class_key`]).
    pub fn get_or_create(
        registry: &mut ClassRegistry,
        class_name_prefix: &str,
        icon_id: Option<ResourceId>,
    ) -> (request: ClassRequest)
        requires
            old(registry).wf(),
            wide_units(class_name_of(class_name_prefix@, icon_id)) is Some,
            old(registry)@.strong(wide_units(class_name_of(class_name_prefix@, icon_id)).unwrap())
                < usize::MAX,
        ensures
            final(registry).wf(),
            final(registry)@.wf(),
            ({
                let key = wide_units(class_name_of(class_name_prefix@, icon_id)).unwrap();
                match request {
                    ClassRequest::Shared(class) => {
                        &&& old(registry)@.is_live(key)
                        &&& final(registry)@ == old(registry)@.shared(key)
                        &&& class.name() == key
                        &&& class.shares_in(final(registry)@)
                    },
                    ClassRequest::MustRegister(name) => {
                        &&& !old(registry)@.is_live(key)
                        &&& final(registry)@ == old(registry)@
                        &&& name@ == key
                    },
                }
            }),
    {
        match class_key(class_name_prefix, icon_id) {
            Some(key) => registry.request(key),
            None => {
                proof {
                    assert(false);
                }
                ClassRequest::MustRegister(Vec::new())
            },
        }
    }

    /// Completes a registration that [`WindowClass::get_or_create`] ordered.
    ///
    /// `outcome` is what the native registration of `class_name` returned. On
    /// success the registration is recorded and its first share handed out;
    /// a failure is passed on and the registry stays as it was.
    pub fn register(
        registry: &mut ClassRegistry,
        class_name: Vec<u16>,
        outcome: Result<(), Error>,
    ) -> (res: Result<WindowClass, Error>)
        requires
            old(registry).wf(),
            !old(registry)@.is_live(class_name@),
            old(registry)@.registrations < u64::MAX,
        ensures
            final(registry).wf(),
            final(registry)@.wf(),
            match outcome {
                Ok(_) => {
                    &&& res is Ok
                    &&& final(registry)@ == old(registry)@.registered(class_name@)
                    &&& res->Ok_0.name() == class_name@
                    &&& res->Ok_0.shares_in(final(registry)@)
                },
                Err(e) => {
                    &&& res == Err::<WindowClass, Error>(e)
                    &&& final(registry)@ == old(registry)@
                },
            },
    {
        match outcome {
            Ok(_) => Ok(registry.insert(class_name)),
            Err(e) => {
                proof {
                    registry.lemma_view_wf();
                }
                Err(e)
            },
        }
    }

    /// Gives this share back. Returns `true` if it was the last share of its
    /// registration: the class must then be unregistered natively.
    pub fn unregister(self, registry: &mut ClassRegistry) -> (last: bool)
        requires
            old(registry).wf(),
            self.shares_in(old(registry)@),
        ensures
            final(registry).wf(),
            final(registry)@.wf(),
            final(registry)@ == old(registry)@.released(self.name()),
            last == !final(registry)@.is_live(self.name()),
            last == (old(registry)@.strong(self.name()) == 1),
    {
        registry.release(self)
    }

    /// The class name, as wide code units without the terminator.
    pub fn class_name(&self) -> (name: &Vec<u16>)
        ensures
            name@ == self.name(),
    {
        &self.class_name
    }
}

} // verus!
