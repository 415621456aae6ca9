//! Logical-output records: one per (manager, output) pair, keyed by the
//! owning output's local index and filled by later events.

use vstd::prelude::*;

use crate::app::{apply_event, AppData, CollectorEvent};

verus! {

/// One xdg output manager and its logical-output records.
pub struct XdgOutputManagerInfo {
    pub name: u32,
    pub outputs: Vec<XdgOutputInfo>,
}

/// One logical output: the owning output's local index and the placement
/// the compositor reports for it.
pub struct XdgOutputInfo {
    pub output_id: u32,
    pub name: String,
    pub description: String,
    pub logical_x: i32,
    pub logical_y: i32,
    pub logical_width: i32,
    pub logical_height: i32,
}

/// Mathematical image of an `XdgOutputInfo`.
#[verifier::ext_equal]
pub ghost struct XdgOutputView {
    pub output_id: u32,
    pub name: Seq<char>,
    pub description: Seq<char>,
    pub logical_x: i32,
    pub logical_y: i32,
    pub logical_width: i32,
    pub logical_height: i32,
}

/// Mathematical image of an `XdgOutputManagerInfo`.
#[verifier::ext_equal]
pub ghost struct XdgOutputManagerView {
    pub name: u32,
    pub outputs: Seq<XdgOutputView>,
}

impl View for XdgOutputInfo {
    type V = XdgOutputView;

    open spec fn view(&self) -> XdgOutputView {
        XdgOutputView {
            output_id: self.output_id,
            name: self.name@,
            description: self.description@,
            logical_x: self.logical_x,
            logical_y: self.logical_y,
            logical_width: self.logical_width,
            logical_height: self.logical_height,
        }
    }
}

impl DeepView for XdgOutputInfo {
    type V = XdgOutputView;

    open spec fn deep_view(&self) -> XdgOutputView {
        self.view()
    }
}

impl View for XdgOutputManagerInfo {
    type V = XdgOutputManagerView;

    open spec fn view(&self) -> XdgOutputManagerView {
        XdgOutputManagerView { name: self.name, outputs: self.outputs.deep_view() }
    }
}

impl DeepView for XdgOutputManagerInfo {
    type V = XdgOutputManagerView;

    open spec fn deep_view(&self) -> XdgOutputManagerView {
        self.view()
    }
}

impl AppData {
    /// Creates the record for a newly announced xdg output manager, with no
    /// logical outputs yet.
    pub fn add_xdg_output_manager(&mut self, name: u32)
        ensures
            final(self)@ == apply_event(old(self)@, CollectorEvent::AddXdgOutputManager { name }),
    {
        self.xdg_output_managers.push(XdgOutputManagerInfo { name, outputs: Vec::new() });
        proof {
            assert(self@ =~~= apply_event(
                old(self)@,
                CollectorEvent::AddXdgOutputManager { name },
            ));
        }
    }

    /// Appends a placeholder logical-output record, owned by the output
    /// with local index `output_id`, to the manager at `manager_index`; an
    /// index past the records discards the event.
    pub fn add_xdg_output(&mut self, manager_index: usize, output_id: u32)
        ensures
            final(self)@ == apply_event(
                old(self)@,
                CollectorEvent::AddXdgOutput { manager_index: manager_index as int, output_id },
            ),
    {
        if manager_index < self.xdg_output_managers.len() {
            self.xdg_output_managers[manager_index].outputs.push(XdgOutputInfo {
                output_id,
                name: String::new(),
                description: String::new(),
                logical_x: 0,
                logical_y: 0,
                logical_width: 0,
                logical_height: 0,
            });
            proof {
                assert(self@ =~~= apply_event(
                    old(self)@,
                    CollectorEvent::AddXdgOutput {
                        manager_index: manager_index as int,
                        output_id,
                    },
                ));
            }
        }
    }

    /// Records the name of the logical output at `output_index` under the
    /// manager at `manager_index`; an index past the records, at either
    /// level, discards the event.
    pub fn update_xdg_output_name(&mut self, manager_index: usize, output_index: usize, name: String)
        ensures
            final(self)@ == apply_event(
                old(self)@,
                CollectorEvent::UpdateXdgOutputName {
                    manager_index: manager_index as int,
                    output_index: output_index as int,
                    name: name@,
                },
            ),
    {
        if manager_index < self.xdg_output_managers.len() {
            if output_index < self.xdg_output_managers[manager_index].outputs.len() {
                self.xdg_output_managers[manager_index].outputs[output_index].name = name;
            }
            proof {
                assert(self@ =~~= apply_event(
                    old(self)@,
                    CollectorEvent::UpdateXdgOutputName {
                        manager_index: manager_index as int,
                        output_index: output_index as int,
                        name: name@,
                    },
                ));
            }
        }
    }

    /// Records the description of the logical output at `output_index`
    /// under the manager at `manager_index`; an index past the records, at
    /// either level, discards the event.
    pub fn update_xdg_output_description(
        &mut self,
        manager_index: usize,
        output_index: usize,
        description: String,
    )
        ensures
            final(self)@ == apply_event(
                old(self)@,
                CollectorEvent::UpdateXdgOutputDescription {
                    manager_index: manager_index as int,
                    output_index: output_index as int,
                    description: description@,
                },
            ),
    {
        if manager_index < self.xdg_output_managers.len() {
            if output_index < self.xdg_output_managers[manager_index].outputs.len() {
                self.xdg_output_managers[manager_index].outputs[output_index].description =
                    description;
            }
            proof {
                assert(self@ =~~= apply_event(
                    old(self)@,
                    CollectorEvent::UpdateXdgOutputDescription {
                        manager_index: manager_index as int,
                        output_index: output_index as int,
                        description: description@,
                    },
                ));
            }
        }
    }

    /// Records the logical position of the logical output at `output_index`
    /// under the manager at `manager_index`; an index past the records, at
    /// either level, discards the event.
    pub fn update_xdg_output_logical_position(
        &mut self,
        manager_index: usize,
        output_index: usize,
        x: i32,
        y: i32,
    )
        ensures
            final(self)@ == apply_event(
                old(self)@,
                CollectorEvent::UpdateXdgOutputLogicalPosition {
                    manager_index: manager_index as int,
                    output_index: output_index as int,
                    x,
                    y,
                },
            ),
    {
        if manager_index < self.xdg_output_managers.len() {
            if output_index < self.xdg_output_managers[manager_index].outputs.len() {
                self.xdg_output_managers[manager_index].outputs[output_index].logical_x = x;
                self.xdg_output_managers[manager_index].outputs[output_index].logical_y = y;
            }
            proof {
                assert(self@ =~~= apply_event(
                    old(self)@,
                    CollectorEvent::UpdateXdgOutputLogicalPosition {
                        manager_index: manager_index as int,
                        output_index: output_index as int,
                        x,
                        y,
                    },
                ));
            }
        }
    }

    /// Records the logical size of the logical output at `output_index`
    /// under the manager at `manager_index`; an index past the records, at
    /// either level, discards the event.
    pub fn update_xdg_output_logical_size(
        &mut self,
        manager_index: usize,
        output_index: usize,
        width: i32,
        height: i32,
    )
        ensures
            final(self)@ == apply_event(
                old(self)@,
                CollectorEvent::UpdateXdgOutputLogicalSize {
                    manager_index: manager_index as int,
                    output_index: output_index as int,
                    width,
                    height,
                },
            ),
    {
        if manager_index < self.xdg_output_managers.len() {
            if output_index < self.xdg_output_managers[manager_index].outputs.len() {
                self.xdg_output_managers[manager_index].outputs[output_index].logical_width = width;
                self.xdg_output_managers[manager_index].outputs[output_index].logical_height =
                    height;
            }
            proof {
                assert(self@ =~~= apply_event(
                    old(self)@,
                    CollectorEvent::UpdateXdgOutputLogicalSize {
                        manager_index: manager_index as int,
                        output_index: output_index as int,
                        width,
                        height,
                    },
                ));
            }
        }
    }
}

} // verus!
