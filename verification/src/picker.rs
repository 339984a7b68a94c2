//! Lists to choose from.

use crate::text;
use vstd::prelude::*;

verus! {

#[derive(Debug, Clone, Copy, PartialEq, Eq, Structural)]
pub enum PickerKind {
    Model,
    Effort,
    Mode,
    Theme,
    UiPlugin,
    Permission,
    Session,
    Auth,
    CordisPlugin,
    CordisApproval,
    AgentHistory,
}

#[derive(Debug, PartialEq, Eq)]
pub struct PickerItem<S = String> {
    pub id: S,
    pub label: S,
    pub meta: S,
    pub provider: Option<S>,
}

impl View for PickerItem {
    type V = PickerItem<Seq<char>>;

    open spec fn view(&self) -> Self::V {
        PickerItem {
            id: self.id@,
            label: self.label@,
            meta: self.meta@,
            provider: text::opt_view(self.provider),
        }
    }
}

impl Clone for PickerItem {
    fn clone(&self) -> (r: Self)
        ensures
            r == *self,
    {
        PickerItem {
            id: self.id.clone(),
            label: self.label.clone(),
            meta: self.meta.clone(),
            provider: match &self.provider {
                Some(p) => Some(p.clone()),
                None => None,
            },
        }
    }
}

pub open spec fn items_view(v: Seq<PickerItem>) -> Seq<PickerItem<Seq<char>>> {
    v.map_values(|i: PickerItem| i@)
}

/// An open list: `sel` is the highlighted row, `offset` the first row shown.
#[derive(Debug, PartialEq, Eq)]
pub struct Picker<S = String, L = Vec<PickerItem>> {
    pub kind: PickerKind,
    pub title: S,
    pub sel: usize,
    pub items: L,
    pub offset: usize,
}

pub type PickerV = Picker<Seq<char>, Seq<PickerItem<Seq<char>>>>;

impl View for Picker {
    type V = PickerV;

    open spec fn view(&self) -> PickerV {
        Picker {
            kind: self.kind,
            title: self.title@,
            sel: self.sel,
            items: items_view(self.items@),
            offset: self.offset,
        }
    }
}

} // verus!
