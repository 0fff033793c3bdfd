//! Selecting the active profile: the pane that shows the selection and the
//! list that changes it.

use vstd::prelude::*;
use vstd::string::StringExecFns;
use crate::context::{Profile, find_profile, first_index, profile_has_id};

verus! {

/// A profile as the selection list shows it: its id and display name.
#[derive(Clone, Debug, PartialEq, Eq)]
pub struct ProfileListItem {
    pub id: String,
    pub name: String,
}

/// The pane that shows the selected profile. It keeps the whole list so that
/// it can hand a copy to the selection list.
#[derive(Debug)]
pub struct ProfilePane {
    pub items: Vec<ProfileListItem>,
    pub selected: Option<usize>,
}

/// The list from which the user picks a profile. Its selection is its own
/// until the user confirms it.
#[derive(Debug)]
pub struct ProfileListModal {
    pub items: Vec<ProfileListItem>,
    pub selected: Option<usize>,
}

/// A profile's display name: its name, else its id.
pub open spec fn display_name(p: Profile) -> Seq<char> {
    match p.name {
        Some(n) => n@,
        None => p.id@,
    }
}

/// Whether the list items show the profiles, one for one and in order.
pub open spec fn items_show(items: Seq<ProfileListItem>, profiles: Seq<Profile>) -> bool {
    &&& items.len() == profiles.len()
    &&& forall|i: int|
        0 <= i < items.len() ==> (#[trigger] items[i]).id@ == profiles[i].id@ && items[i].name@
            == display_name(profiles[i])
}

/// A selection points into the list, and there is one whenever the list is
/// not empty.
pub open spec fn selection_ok(items: Seq<ProfileListItem>, selected: Option<usize>) -> bool {
    match selected {
        Some(i) => i < items.len(),
        None => items.len() == 0,
    }
}

/// The first item with this id.
pub open spec fn first_with_id(items: Seq<ProfileListItem>, id: Seq<char>) -> Option<int> {
    crate::context::first_index(items, |it: ProfileListItem| it.id@ == id)
}

fn position_of(items: &Vec<ProfileListItem>, id: &String) -> (r: Option<usize>)
    ensures
        first_with_id(items@, id@) == match r {
            Some(i) => Some(i as int),
            None => None::<int>,
        },
        r matches Some(i) ==> i < items@.len(),
{
    let ghost p = |it: ProfileListItem| it.id@ == id@;
    let mut i: usize = 0;
    while i < items.len()
        invariant
            i <= items@.len(),
            p == (|it: ProfileListItem| it.id@ == id@),
            forall|j: int| 0 <= j < i ==> !p(#[trigger] items@[j]),
        decreases items@.len() - i,
    {
        if items[i].id == *id {
            proof {
                crate::context::lemma_first_index_at(items@, p, i as int);
            }
            return Some(i);
        }
        i = i + 1;
    }
    proof {
        crate::context::lemma_first_index_at(items@, p, i as int);
    }
    None
}

fn clone_items(items: &Vec<ProfileListItem>) -> (r: Vec<ProfileListItem>)
    ensures
        r@ == items@,
{
    let mut out: Vec<ProfileListItem> = Vec::new();
    let mut i: usize = 0;
    while i < items.len()
        invariant
            i <= items@.len(),
            out@ == items@.take(i as int),
        decreases items@.len() - i,
    {
        let it = ProfileListItem { id: items[i].id.clone(), name: items[i].name.clone() };
        out.push(it);
        proof {
            assert(items@.take(i + 1) =~= items@.take(i as int).push(items@[i as int]));
        }
        i = i + 1;
    }
    proof {
        assert(items@.take(i as int) =~= items@);
    }
    out
}

impl ProfilePane {
    /// Lists the profiles in order, with the first one selected.
    pub fn new(profiles: &Vec<Profile>) -> (r: ProfilePane)
        ensures
            items_show(r.items@, profiles@),
            r.selected == if profiles@.len() == 0 { None::<usize> } else { Some(0usize) },
            selection_ok(r.items@, r.selected),
    {
        let mut items: Vec<ProfileListItem> = Vec::new();
        let mut i: usize = 0;
        while i < profiles.len()
            invariant
                i <= profiles@.len(),
                items_show(items@, profiles@.take(i as int)),
            decreases profiles@.len() - i,
        {
            let p = &profiles[i];
            let name = match &p.name {
                Some(n) => n.clone(),
                None => p.id.clone(),
            };
            items.push(ProfileListItem { id: p.id.clone(), name });
            i = i + 1;
        }
        proof {
            assert(profiles@.take(i as int) =~= profiles@);
        }
        let selected = if items.len() == 0 {
            None
        } else {
            Some(0)
        };
        ProfilePane { items, selected }
    }

    /// The id of the selected profile.
    pub fn selected_profile(&self) -> (r: Option<&String>)
        requires
            selection_ok(self.items@, self.selected),
        ensures
            match self.selected {
                Some(i) => r matches Some(id) && *id == self.items@[i as int].id,
                None => r is None,
            },
    {
        match self.selected {
            Some(i) => Some(&self.items[i].id),
            None => None,
        }
    }

    /// Selects the profile with this id; an id that is not listed changes
    /// nothing.
    pub fn select(&mut self, id: &String)
        ensures
            final(self).items@ == old(self).items@,
            final(self).selected == match first_with_id(old(self).items@, id@) {
                Some(i) => Some(i as usize),
                None => old(self).selected,
            },
    {
        match position_of(&self.items, id) {
            Some(i) => {
                self.selected = Some(i);
            },
            None => {},
        }
    }

    /// The selection list to open: a copy of the items, with the pane's
    /// selected profile preselected (its first entry, were an id listed twice).
    pub fn open_modal(&self) -> (r: ProfileListModal)
        requires
            selection_ok(self.items@, self.selected),
        ensures
            r.items@ == self.items@,
            selection_ok(r.items@, r.selected),
            match (self.selected, r.selected) {
                (Some(i), Some(j)) => first_with_id(self.items@, self.items@[i as int].id@) == Some(
                    j as int,
                ),
                (None, None) => true,
                _ => false,
            },
    {
        let items = clone_items(&self.items);
        let selected_id = match self.selected {
            Some(i) => Some(&self.items[i].id),
            None => None,
        };
        let r = ProfileListModal::new(items, selected_id);
        proof {
            if let Some(i) = self.selected {
                let p = |it: ProfileListItem| it.id@ == self.items@[i as int].id@;
                crate::context::lemma_first_index(self.items@, p);
            }
        }
        r
    }
}

impl ProfileListModal {
    /// Lists the items, preselecting the one with the given id where there is
    /// one, else the first.
    pub fn new(profiles: Vec<ProfileListItem>, selected_profile: Option<&String>) -> (r:
        ProfileListModal)
        ensures
            r.items@ == profiles@,
            selection_ok(r.items@, r.selected),
            r.selected == match selected_profile {
                Some(id) => match first_with_id(profiles@, id@) {
                    Some(i) => Some(i as usize),
                    None => if profiles@.len() == 0 {
                        None::<usize>
                    } else {
                        Some(0usize)
                    },
                },
                None => if profiles@.len() == 0 {
                    None::<usize>
                } else {
                    Some(0usize)
                },
            },
    {
        let found = match selected_profile {
            Some(id) => position_of(&profiles, id),
            None => None,
        };
        let selected = match found {
            Some(i) => Some(i),
            None => if profiles.len() == 0 {
                None
            } else {
                Some(0)
            },
        };
        ProfileListModal { items: profiles, selected }
    }

    /// The item the user confirms: the id to hand back to the pane.
    pub fn submit(&self) -> (r: Option<String>)
        requires
            selection_ok(self.items@, self.selected),
        ensures
            match self.selected {
                Some(i) => r matches Some(id) && id@ == self.items@[i as int].id@,
                None => r is None,
            },
    {
        match self.selected {
            Some(i) => Some(self.items[i].id.clone()),
            None => None,
        }
    }
}

/// The most rows that the selection list takes on screen.
pub const LIST_MAX_ROWS: u16 = 5;

impl ProfilePane {
    /// What the pane shows: the selected profile's name, or a note that there
    /// are no profiles.
    pub fn display_text(&self) -> (r: String)
        requires
            selection_ok(self.items@, self.selected),
        ensures
            r@ == match self.selected {
                Some(i) => self.items@[i as int].name@,
                None => "No profiles defined"@,
            },
    {
        match self.selected {
            Some(i) => self.items[i].name.clone(),
            None => String::from_str("No profiles defined"),
        }
    }
}

impl ProfileListModal {
    /// How many rows the list takes: one per item, at most `LIST_MAX_ROWS`.
    pub fn list_height(&self) -> (r: u16)
        ensures
            r as int == if self.items@.len() < LIST_MAX_ROWS as int {
                self.items@.len() as int
            } else {
                LIST_MAX_ROWS as int
            },
    {
        if self.items.len() < LIST_MAX_ROWS as usize {
            self.items.len() as u16
        } else {
            LIST_MAX_ROWS
        }
    }
}

/// The rows of a profile's detail table: each field's name and template
/// source, in order.
pub open spec fn rows_show(rows: Seq<(String, String)>, p: Profile) -> bool {
    &&& rows.len() == p.data@.len()
    &&& forall|i: int|
        0 <= i < rows.len() ==> (#[trigger] rows[i]).0@ == p.data@[i].0@ && rows[i].1@
            == p.data@[i].1.template@
}

/// The detail rows of the profile with this id; `None` where no profile has it.
pub fn profile_detail_rows(profiles: &Vec<Profile>, id: &String) -> (r: Option<Vec<(String, String)>>)
    ensures
        match (first_index(profiles@, profile_has_id(id@)), r) {
            (Some(i), Some(rows)) => rows_show(rows@, profiles@[i]),
            (None, None) => true,
            _ => false,
        },
{
    let pi = match find_profile(profiles, id) {
        Some(i) => i,
        None => return None,
    };
    let p = &profiles[pi];
    let mut rows: Vec<(String, String)> = Vec::new();
    let mut j: usize = 0;
    while j < p.data.len()
        invariant
            j <= p.data@.len(),
            rows@.len() == j,
            forall|k: int|
                0 <= k < j ==> (#[trigger] rows@[k]).0@ == p.data@[k].0@ && rows@[k].1@
                    == p.data@[k].1.template@,
        decreases p.data@.len() - j,
    {
        rows.push((p.data[j].0.clone(), p.data[j].1.template.clone()));
        j = j + 1;
    }
    Some(rows)
}

} // verus!
