//! Treeland output-manager records: the compositor's primary-output hint.

use vstd::prelude::*;

use crate::app::{apply_event, AppData, CollectorEvent};

verus! {

/// One treeland output manager and the primary output it has named, if any.
pub struct TreelandOutputManagerInfo {
    pub name: u32,
    pub primary_output: Option<String>,
}

/// Mathematical image of a `TreelandOutputManagerInfo`.
#[verifier::ext_equal]
pub ghost struct TreelandOutputManagerView {
    pub name: u32,
    pub primary_output: Option<Seq<char>>,
}

impl View for TreelandOutputManagerInfo {
    type V = TreelandOutputManagerView;

    open spec fn view(&self) -> TreelandOutputManagerView {
        TreelandOutputManagerView {
            name: self.name,
            primary_output: self.primary_output.deep_view(),
        }
    }
}

impl DeepView for TreelandOutputManagerInfo {
    type V = TreelandOutputManagerView;

    open spec fn deep_view(&self) -> TreelandOutputManagerView {
        self.view()
    }
}

impl AppData {
    /// Creates the record for a newly announced treeland output manager,
    /// with no primary output named yet.
    pub fn add_treeland_output_manager(&mut self, name: u32)
        ensures
            final(self)@ == apply_event(
                old(self)@,
                CollectorEvent::AddTreelandOutputManager { name },
            ),
    {
        self.treeland_output_managers.push(TreelandOutputManagerInfo {
            name,
            primary_output: None,
        });
        proof {
            assert(self@ =~~= apply_event(
                old(self)@,
                CollectorEvent::AddTreelandOutputManager { name },
            ));
        }
    }

    /// Records the primary output named by the manager at `manager_index`;
    /// an index past the records discards the event.
    pub fn update_treeland_primary_output(&mut self, manager_index: usize, output_name: String)
        ensures
            final(self)@ == apply_event(
                old(self)@,
                CollectorEvent::UpdateTreelandPrimaryOutput {
                    manager_index: manager_index as int,
                    output_name: output_name@,
                },
            ),
    {
        if manager_index < self.treeland_output_managers.len() {
            self.treeland_output_managers[manager_index].primary_output = Some(output_name);
            proof {
                assert(self@ =~~= apply_event(
                    old(self)@,
                    CollectorEvent::UpdateTreelandPrimaryOutput {
                        manager_index: manager_index as int,
                        output_name: output_name@,
                    },
                ));
            }
        }
    }
}

} // verus!
