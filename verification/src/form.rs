//! State kept for the dimension-editing collaborator: the current raw
//! dimensions and the per-field change messages that update them.
//!
//! The interactive form itself (text fields, parsing, repainting) lives
//! outside this crate; it owns a `DimensionsForm`, feeds each accepted edit
//! in as a `FormMsg`, and reads the updated snapshot back.

use vstd::prelude::*;

verus! {

use crate::cabinet::{default_dimensions, CabinetDimensions};

/// A single accepted edit of one raw dimension field.
#[derive(Clone, Copy, Debug, PartialEq, Eq, Structural)]
pub enum FormMsg {
    ChangeVolume(u32),
    ChangeRadius(u32),
    ChangeLength(u32),
    ChangeHeight(u32),
    ChangeWidth(u32),
}

/// The dimensions a change message leaves behind: the addressed field takes
/// the new value, every other field keeps its own.
pub open spec fn apply_msg(c: CabinetDimensions, msg: FormMsg) -> CabinetDimensions {
    match msg {
        FormMsg::ChangeVolume(n) => CabinetDimensions { box_volume: n, ..c },
        FormMsg::ChangeRadius(n) => CabinetDimensions { port_flare_radius: n, ..c },
        FormMsg::ChangeLength(n) => CabinetDimensions { port_length: n, ..c },
        FormMsg::ChangeHeight(n) => CabinetDimensions { port_external_height: n, ..c },
        FormMsg::ChangeWidth(n) => CabinetDimensions { port_external_width: n, ..c },
    }
}

/// The state behind the dimension-editing form: the current snapshot of
/// the raw dimensions.
#[derive(Clone, Copy, Debug, PartialEq, Eq, Structural)]
pub struct DimensionsForm {
    pub cabinet: CabinetDimensions,
}

impl DimensionsForm {
    /// A fresh form, holding the default dimensions.
    pub fn create() -> (form: Self)
        ensures
            form.cabinet == default_dimensions(),
    {
        DimensionsForm { cabinet: CabinetDimensions::default() }
    }

    /// Applies one change message; reports whether the view must be
    /// redrawn, which every accepted edit requires.
    pub fn update(&mut self, msg: FormMsg) -> (redraw: bool)
        ensures
            final (self).cabinet == apply_msg(old(self).cabinet, msg),
            redraw,
    {
        match msg {
            FormMsg::ChangeHeight(height) => {
                self.cabinet.port_external_height = height;
            },
            FormMsg::ChangeWidth(width) => {
                self.cabinet.port_external_width = width;
            },
            FormMsg::ChangeLength(length) => {
                self.cabinet.port_length = length;
            },
            FormMsg::ChangeRadius(radius) => {
                self.cabinet.port_flare_radius = radius;
            },
            FormMsg::ChangeVolume(volume) => {
                self.cabinet.box_volume = volume;
            },
        }
        true
    }
}

/// The application-level message: the form hands the whole updated
/// snapshot to whoever recomputes the model.
#[derive(Clone, Copy, Debug, PartialEq, Eq, Structural)]
pub enum DimensionsMsg {
    Change(CabinetDimensions),
}

} // verus!
