//! DRM lease device records. In the observed control flow no secondary
//! object is ever bound for this interface, so the device path and the
//! connector list stay at their defaults; the fields are kept as the data
//! model defines them rather than inventing the missing bind.

use vstd::prelude::*;

use crate::app::{apply_event, AppData, CollectorEvent};

verus! {

/// One DRM lease device: numeric id, optional device path, connectors.
pub struct DrmLeaseDeviceInfo {
    pub name: u32,
    pub device_path: Option<String>,
    pub connectors: Vec<DrmLeaseConnectorInfo>,
}

/// One connector offered for leasing.
pub struct DrmLeaseConnectorInfo {
    pub name: String,
    pub description: String,
    pub connector_id: u32,
}

/// Mathematical image of a `DrmLeaseConnectorInfo`.
#[verifier::ext_equal]
pub ghost struct DrmLeaseConnectorView {
    pub name: Seq<char>,
    pub description: Seq<char>,
    pub connector_id: u32,
}

/// Mathematical image of a `DrmLeaseDeviceInfo`.
#[verifier::ext_equal]
pub ghost struct DrmLeaseDeviceView {
    pub name: u32,
    pub device_path: Option<Seq<char>>,
    pub connectors: Seq<DrmLeaseConnectorView>,
}

impl View for DrmLeaseConnectorInfo {
    type V = DrmLeaseConnectorView;

    open spec fn view(&self) -> DrmLeaseConnectorView {
        DrmLeaseConnectorView {
            name: self.name@,
            description: self.description@,
            connector_id: self.connector_id,
        }
    }
}

impl DeepView for DrmLeaseConnectorInfo {
    type V = DrmLeaseConnectorView;

    open spec fn deep_view(&self) -> DrmLeaseConnectorView {
        self.view()
    }
}

impl View for DrmLeaseDeviceInfo {
    type V = DrmLeaseDeviceView;

    open spec fn view(&self) -> DrmLeaseDeviceView {
        DrmLeaseDeviceView {
            name: self.name,
            device_path: self.device_path.deep_view(),
            connectors: self.connectors.deep_view(),
        }
    }
}

impl DeepView for DrmLeaseDeviceInfo {
    type V = DrmLeaseDeviceView;

    open spec fn deep_view(&self) -> DrmLeaseDeviceView {
        self.view()
    }
}

impl AppData {
    /// Creates the record for a newly announced DRM lease device: no path
    /// and no connectors yet.
    pub fn add_drm_lease_device(&mut self, name: u32)
        ensures
            final(self)@ == apply_event(old(self)@, CollectorEvent::AddDrmLeaseDevice { name }),
    {
        self.drm_lease_devices.push(DrmLeaseDeviceInfo {
            name,
            device_path: None,
            connectors: Vec::new(),
        });
        proof {
            assert(self@ =~~= apply_event(old(self)@, CollectorEvent::AddDrmLeaseDevice { name }));
        }
    }

    /// Records the device path of the device at `device_index`; an index
    /// past the records discards the event.
    pub fn update_drm_lease_device_path(&mut self, device_index: usize, path: String)
        ensures
            final(self)@ == apply_event(
                old(self)@,
                CollectorEvent::UpdateDrmLeaseDevicePath {
                    device_index: device_index as int,
                    path: path@,
                },
            ),
    {
        if device_index < self.drm_lease_devices.len() {
            self.drm_lease_devices[device_index].device_path = Some(path);
            proof {
                assert(self@ =~~= apply_event(
                    old(self)@,
                    CollectorEvent::UpdateDrmLeaseDevicePath {
                        device_index: device_index as int,
                        path: path@,
                    },
                ));
            }
        }
    }

    /// Appends a connector to the device at `device_index`; an index past
    /// the records discards the event.
    pub fn add_drm_lease_connector(
        &mut self,
        device_index: usize,
        name: String,
        description: String,
        connector_id: u32,
    )
        ensures
            final(self)@ == apply_event(
                old(self)@,
                CollectorEvent::AddDrmLeaseConnector {
                    device_index: device_index as int,
                    name: name@,
                    description: description@,
                    connector_id,
                },
            ),
    {
        if device_index < self.drm_lease_devices.len() {
            self.drm_lease_devices[device_index].connectors.push(DrmLeaseConnectorInfo {
                name,
                description,
                connector_id,
            });
            proof {
                assert(self@ =~~= apply_event(
                    old(self)@,
                    CollectorEvent::AddDrmLeaseConnector {
                        device_index: device_index as int,
                        name: name@,
                        description: description@,
                        connector_id,
                    },
                ));
            }
        }
    }
}

} // verus!
