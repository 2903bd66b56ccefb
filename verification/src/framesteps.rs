//! The resource that shows the fixed framesteps of a world to its systems.

use vstd::prelude::*;
use crate::info::{FixedFramestepInfo, FramestepName};

verus! {

/// The hash map of `bevy_utils` from the names of the fixed framesteps to their
/// parameters. Verus does not look inside: what it holds is `table_entries`.
#[verifier::external_body]
pub struct InfoTable {
    inner: bevy_utils::HashMap<FramestepName, FixedFramestepInfo>,
}

/// What an `InfoTable` holds: the parameters stored under each name.
pub uninterp spec fn table_entries(table: InfoTable) -> Map<Seq<char>, FixedFramestepInfo>;

/// Whether `entries` holds exactly `n` names.
pub open spec fn holds_names(entries: Map<Seq<char>, FixedFramestepInfo>, n: nat) -> bool {
    entries.dom().finite() && entries.dom().len() == n
}

/// `HashMap::default` of `bevy_utils`: a map that holds nothing.
#[verifier::external_body]
fn table_new() -> (table: InfoTable)
    ensures
        table_entries(table) =~= Map::empty(),
{
    InfoTable { inner: bevy_utils::HashMap::default() }
}

/// `HashMap::len`: the number of names in the map, of which there are finitely many.
#[verifier::external_body]
fn table_len(table: &InfoTable) -> (n: usize)
    ensures
        holds_names(table_entries(*table), n as nat),
{
    table.inner.len()
}

/// `HashMap::get`: the parameters stored under `label`, if there are any.
#[verifier::external_body]
fn table_get<'a>(table: &'a InfoTable, label: FramestepName) -> (found: Option<
    &'a FixedFramestepInfo,
>)
    ensures
        found == (if table_entries(*table).contains_key(label@) {
            Some(&table_entries(*table)[label@])
        } else {
            None
        }),
{
    table.inner.get(label)
}

/// `HashMap::get_mut`: the parameters stored under `label`, if there are any, to be
/// changed in place. Whatever the caller leaves in them is what the map then holds
/// under `label`; nothing else in the map changes.
#[verifier::external_body]
fn table_get_mut<'a>(table: &'a mut InfoTable, label: FramestepName) -> (found: Option<
    &'a mut FixedFramestepInfo,
>)
    ensures
        match found {
            Some(info) => table_entries(*old(table)).contains_key(label@)
                && *info == table_entries(*old(table))[label@]
                && table_entries(*final(table)) == table_entries(*old(table)).insert(
                label@,
                *final(info),
            ),
            None => !table_entries(*old(table)).contains_key(label@)
                && table_entries(*final(table)) == table_entries(*old(table)),
        },
{
    table.inner.get_mut(label)
}

/// `HashMap::insert`: afterwards the map holds `info` under `label`, whether or not it
/// held something there before, and everything else as it was.
#[verifier::external_body]
fn table_insert(table: &mut InfoTable, label: FramestepName, info: FixedFramestepInfo)
    ensures
        table_entries(*final(table)) == table_entries(*old(table)).insert(label@, info),
{
    table.inner.insert(label, info);
}

/// The first item of `HashMap::values`. The map walks its values in an order of its
/// own, so all that is known of the item is that the map holds it under some name;
/// there is none only if the map holds nothing.
#[verifier::external_body]
fn table_first<'a>(table: &'a InfoTable) -> (found: Option<&'a FixedFramestepInfo>)
    ensures
        match found {
            Some(info) => exists|name: Seq<char>| #[trigger]
                table_entries(*table).contains_key(name) && table_entries(*table)[name]
                    == *info,
            None => forall|name: Seq<char>| !#[trigger] table_entries(*table).contains_key(name),
        },
{
    table.inner.values().next()
}

/// The first item of `HashMap::values_mut`, to be changed in place: the parameters
/// that the map holds under some name, and whatever the caller leaves in them is what
/// the map then holds under that name. There is none only if the map holds nothing.
#[verifier::external_body]
fn table_first_mut<'a>(table: &'a mut InfoTable) -> (found: Option<&'a mut FixedFramestepInfo>)
    ensures
        match found {
            Some(info) => exists|name: Seq<char>| #[trigger]
                table_entries(*old(table)).contains_key(name) && table_entries(
                    *old(table),
                )[name] == *info && table_entries(*final(table)) == table_entries(
                    *old(table),
                ).insert(name, *final(info)),
            None => (forall|name: Seq<char>| !#[trigger]
                table_entries(*old(table)).contains_key(name)) && table_entries(*final(table))
                == table_entries(*old(table)),
        },
{
    table.inner.values_mut().next()
}

/// In a set of exactly one name, every name is the one that `choose` picks.
proof fn lemma_only_name(names: Set<Seq<char>>)
    requires
        names.finite(),
        names.len() == 1,
    ensures
        names.contains(names.choose()),
        forall|name: Seq<char>| names.contains(name) ==> name == names.choose(),
{
    assert forall|name: Seq<char>| names.contains(name) implies name == names.choose() by {
        if name != names.choose() {
            assert(names.remove(name).remove(names.choose()).len() >= 0);
        }
    }
}

/// What a `FixedFramesteps` resource holds.
pub struct FramestepsView {
    /// The parameters of each fixed framestep, by its name.
    pub info: Map<Seq<char>, FixedFramestepInfo>,
    /// The name of the fixed framestep whose child stages are running, if any are.
    pub current: Option<Seq<char>>,
}

impl FramestepsView {
    /// A resource that knows no fixed framestep and has none running.
    pub open spec fn empty() -> FramestepsView {
        FramestepsView { info: Map::empty(), current: None }
    }

    /// The parameters of the fixed framestep called `name`, if it is known.
    pub open spec fn get(self, name: Seq<char>) -> Option<FixedFramestepInfo> {
        if self.info.contains_key(name) {
            Some(self.info[name])
        } else {
            None
        }
    }

    /// The parameters of the fixed framestep whose child stages are running.
    pub open spec fn get_current(self) -> Option<FixedFramestepInfo> {
        match self.current {
            Some(name) => self.get(name),
            None => None,
        }
    }

    /// Whether exactly one fixed framestep is known.
    pub open spec fn is_single(self) -> bool {
        self.info.dom().finite() && self.info.dom().len() == 1
    }

    /// The parameters of the one fixed framestep, where exactly one is known.
    pub open spec fn get_single(self) -> Option<FixedFramestepInfo> {
        if self.is_single() {
            Some(self.info[self.info.dom().choose()])
        } else {
            None
        }
    }

    /// The resource with `info` stored under `name`.
    pub open spec fn with_info(self, name: Seq<char>, info: FixedFramestepInfo) -> FramestepsView {
        FramestepsView { info: self.info.insert(name, info), ..self }
    }

    /// The resource with its running fixed framestep set to `current`.
    pub open spec fn with_current(self, current: Option<Seq<char>>) -> FramestepsView {
        FramestepsView { current, ..self }
    }
}

/// Resource type that allows you to get info about and to manipulate fixed framestep state
///
/// If you want to access parameters of your fixed framestep(s), such as the framestep
/// duration, accumulator, and paused state, you can get them from this resource. They
/// are contained in a [`FixedFramestepInfo`] struct, which you can get using the various
/// methods on this type.
///
/// If you mutate the framestep duration or paused state, they will be taken into account
/// from the next run of that fixed framestep.
///
/// From within a fixed framestep system, you can also mutate the accumulator.
pub struct FixedFramesteps {
    info: InfoTable,
    current: Option<FramestepName>,
}

impl View for FixedFramesteps {
    type V = FramestepsView;

    closed spec fn view(&self) -> FramestepsView {
        FramestepsView {
            info: table_entries(self.info),
            current: match self.current {
                Some(label) => Some(label@),
                None => None,
            },
        }
    }
}

impl bevy_ecs::system::Resource for FixedFramesteps {}

impl Default for FixedFramesteps {
    fn default() -> (r: FixedFramesteps)
        ensures
            r@ == FramestepsView::empty(),
    {
        FixedFramesteps { info: table_new(), current: None }
    }
}

impl FixedFramesteps {
    /// Returns a reference to the framestep info for a given framestep by name.
    pub fn get(&self, label: FramestepName) -> (r: Option<&FixedFramestepInfo>)
        ensures
            r == (match self@.get(label@) {
                Some(info) => Some(&info),
                None => None,
            }),
    {
        table_get(&self.info, label)
    }

    /// Returns a reference to the framestep info for the currently running stage.
    ///
    /// Returns [`Some`] only if called inside a fixed framestep stage.
    pub fn get_current(&self) -> (r: Option<&FixedFramestepInfo>)
        ensures
            r == (match self@.get_current() {
                Some(info) => Some(&info),
                None => None,
            }),
    {
        match self.current {
            Some(label) => table_get(&self.info, label),
            None => None,
        }
    }

    /// Version of [`FixedFramesteps::get_current`] for callers that run inside a fixed
    /// framestep.
    pub fn current(&self) -> (r: &FixedFramestepInfo)
        requires
            self@.get_current().is_some(),
        ensures
            Some(*r) == self@.get_current(),
    {
        self.get_current().unwrap()
    }

    /// Returns a reference to the framestep info, assuming you only have one.
    pub fn get_single(&self) -> (r: Option<&FixedFramestepInfo>)
        ensures
            r == (match self@.get_single() {
                Some(info) => Some(&info),
                None => None,
            }),
    {
        if table_len(&self.info) != 1 {
            return None;
        }
        proof {
            lemma_only_name(table_entries(self.info).dom());
        }
        table_first(&self.info)
    }

    /// Version of [`FixedFramesteps::get_single`] for callers that have exactly one
    /// fixed framestep.
    pub fn single(&self) -> (r: &FixedFramestepInfo)
        requires
            self@.is_single(),
        ensures
            Some(*r) == self@.get_single(),
    {
        self.get_single().unwrap()
    }

    /// Returns a mut reference to the framestep info for a given framestep by name.
    ///
    /// What the caller leaves in the info is what the resource then holds under `label`.
    pub fn get_mut(&mut self, label: FramestepName) -> (r: Option<&mut FixedFramestepInfo>)
        ensures
            match r {
                Some(info) => old(self)@.get(label@) == Some(*info) && final(self)@ == old(
                    self,
                )@.with_info(label@, *final(info)),
                None => old(self)@.get(label@).is_none() && final(self)@ == old(self)@,
            },
    {
        table_get_mut(&mut self.info, label)
    }

    /// Returns a mut reference to the framestep info for the currently running stage.
    ///
    /// Returns [`Some`] only if called inside a fixed framestep stage.
    pub fn get_current_mut(&mut self) -> (r: Option<&mut FixedFramestepInfo>)
        ensures
            match r {
                Some(info) => old(self)@.get_current() == Some(*info) && final(self)@ == old(
                    self,
                )@.with_info(old(self)@.current.unwrap(), *final(info)),
                None => old(self)@.get_current().is_none() && final(self)@ == old(self)@,
            },
    {
        match self.current {
            Some(label) => table_get_mut(&mut self.info, label),
            None => None,
        }
    }

    /// Version of [`FixedFramesteps::get_current_mut`] for callers that run inside a
    /// fixed framestep.
    pub fn current_mut(&mut self) -> (r: &mut FixedFramestepInfo)
        requires
            old(self)@.get_current().is_some(),
        ensures
            old(self)@.get_current() == Some(*r),
            final(self)@ == old(self)@.with_info(old(self)@.current.unwrap(), *final(r)),
    {
        self.get_current_mut().unwrap()
    }

    /// Returns a mut reference to the framestep info, assuming you only have one.
    ///
    /// What the caller leaves in the info is what the resource then holds under the one
    /// name it knows.
    pub fn get_single_mut(&mut self) -> (r: Option<&mut FixedFramestepInfo>)
        ensures
            match r {
                Some(info) => old(self)@.get_single() == Some(*info) && final(self)@ == old(
                    self,
                )@.with_info(old(self)@.info.dom().choose(), *final(info)),
                None => old(self)@.get_single().is_none() && final(self)@ == old(self)@,
            },
    {
        if table_len(&self.info) != 1 {
            return None;
        }
        proof {
            lemma_only_name(table_entries(self.info).dom());
        }
        table_first_mut(&mut self.info)
    }

    /// Version of [`FixedFramesteps::get_single_mut`] for callers that have exactly one
    /// fixed framestep.
    pub fn single_mut(&mut self) -> (r: &mut FixedFramestepInfo)
        requires
            old(self)@.is_single(),
        ensures
            old(self)@.get_single() == Some(*r),
            final(self)@ == old(self)@.with_info(old(self)@.info.dom().choose(), *final(r)),
    {
        self.get_single_mut().unwrap()
    }

    /// Stores `info` under `label`, whether or not the resource knew that name.
    pub(crate) fn store(&mut self, label: FramestepName, info: FixedFramestepInfo)
        ensures
            final(self)@ == old(self)@.with_info(label@, info),
    {
        table_insert(&mut self.info, label, info);
    }

    /// Marks the fixed framestep whose child stages are about to run, or with `None`
    /// that none is running any more.
    pub(crate) fn set_current(&mut self, current: Option<FramestepName>)
        ensures
            final(self)@ == old(self)@.with_current(
                match current {
                    Some(label) => Some(label@),
                    None => None,
                },
            ),
    {
        self.current = current;
    }
}

} // verus!
