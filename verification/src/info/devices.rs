//! Dynamic information that each device reports to the platform device,
//! and the requests through which devices register.
use vstd::prelude::*;
use crate::error::Error;
use crate::info::structure::{
    DeviceStructure, StructuralElement, topic_well_formed, topic_layers, structure_path_ok,
};
use crate::registry::Registry;
use crate::json::{JsonValue, JsonView, json_view, entries_view, lemma_entries_view};

verus! {

/// States of a device.
#[derive(Debug, Clone, Copy, PartialEq, Eq, Structural)]
pub enum DeviceState {
    Booting,
    Connecting,
    Initializating,
    Running,
    Warning,
    Cleaning,
    Stopping,
}

/// The name under which a device state is displayed.
pub open spec fn device_state_text(state: DeviceState) -> Seq<char> {
    match state {
        DeviceState::Booting => "Booting"@,
        DeviceState::Connecting => "Connecting"@,
        DeviceState::Initializating => "Initializating"@,
        DeviceState::Running => "Running"@,
        DeviceState::Warning => "Warning"@,
        DeviceState::Cleaning => "Cleaning"@,
        DeviceState::Stopping => "Stopping"@,
    }
}

/// The content of the status payload of a device in state `state`.
pub open spec fn status_payload_view(state: DeviceState) -> JsonView {
    JsonView::Object(seq![("state"@, JsonView::Str(device_state_text(state)))])
}

/// Dynamic information that a device maintains inside the platform device:
/// its state, whether the state changed since it was last published, and its
/// structure.
pub struct InfoDynamicDeviceStatus {
    state: DeviceState,
    has_been_updated: bool,
    structure: DeviceStructure,
}

impl InfoDynamicDeviceStatus {
    pub closed spec fn state_view(&self) -> DeviceState {
        self.state
    }

    pub closed spec fn updated_view(&self) -> bool {
        self.has_been_updated
    }

    pub closed spec fn structure_view(&self) -> DeviceStructure {
        self.structure
    }

    /// A booting device with an empty structure, to be published.
    pub fn new() -> (s: InfoDynamicDeviceStatus)
        ensures
            s.state_view() == DeviceState::Booting,
            s.updated_view(),
            s.structure_view().elements_view().len() == 0,
    {
        InfoDynamicDeviceStatus {
            state: DeviceState::Booting,
            has_been_updated: true,
            structure: DeviceStructure::new(),
        }
    }

    /// The displayed name of the state.
    pub fn state_as_string(&self) -> (s: String)
        ensures
            s@ == device_state_text(self.state_view()),
    {
        match self.state {
            DeviceState::Booting => String::from_str("Booting"),
            DeviceState::Connecting => String::from_str("Connecting"),
            DeviceState::Initializating => String::from_str("Initializating"),
            DeviceState::Running => String::from_str("Running"),
            DeviceState::Warning => String::from_str("Warning"),
            DeviceState::Cleaning => String::from_str("Cleaning"),
            DeviceState::Stopping => String::from_str("Stopping"),
        }
    }

    /// Changes the state; the change is to be published.
    pub fn change_state(&mut self, new_state: DeviceState)
        ensures
            final(self).state_view() == new_state,
            final(self).updated_view(),
            final(self).structure_view() == old(self).structure_view(),
    {
        self.state = new_state;
        self.has_been_updated = true;
    }

    /// Whether the state changed since the last call; the change counts as
    /// published afterwards.
    pub fn has_been_updated(&mut self) -> (b: bool)
        ensures
            b == old(self).updated_view(),
            !final(self).updated_view(),
            final(self).state_view() == old(self).state_view(),
            final(self).structure_view() == old(self).structure_view(),
    {
        if self.has_been_updated {
            self.has_been_updated = false;
            return true;
        }
        return false;
    }

    /// The payload published for the status: `{"state": <state name>}`.
    pub fn status_payload(&self) -> (p: JsonValue)
        ensures
            json_view(p) == status_payload_view(self.state_view()),
    {
        let entries = vec![(String::from_str("state"), JsonValue::String(self.state_as_string()))];
        proof {
            lemma_entries_view(entries@);
            assert(entries_view(entries@) =~= seq![("state"@, JsonView::Str(device_state_text(self.state_view())))]);
        }
        JsonValue::Object(entries)
    }

    /// The payload to publish when the state changed since the last call;
    /// the change counts as published afterwards.
    pub fn take_status_update(&mut self) -> (u: Option<JsonValue>)
        ensures
            match u {
                Some(p) => old(self).updated_view() && json_view(p) == status_payload_view(old(self).state_view()),
                None => !old(self).updated_view(),
            },
            !final(self).updated_view(),
            final(self).state_view() == old(self).state_view(),
            final(self).structure_view() == old(self).structure_view(),
    {
        if self.has_been_updated() {
            Some(self.status_payload())
        } else {
            None
        }
    }

    /// The structure of the device.
    pub fn structure(&self) -> (s: &DeviceStructure)
        ensures
            *s == self.structure_view(),
    {
        &self.structure
    }

    /// Inserts `element` into the structure of the device at `topic`, as
    /// `DeviceStructure::insert` does.
    pub fn structure_insert(&mut self, topic: String, element: StructuralElement) -> (r: Result<(), Error>)
        requires
            topic_well_formed(topic@),
            structure_path_ok(old(self).structure_view().elements_view(), topic_layers(topic@)),
        ensures
            final(self).state_view() == old(self).state_view(),
            final(self).updated_view() == old(self).updated_view(),
            DeviceStructure::insert_post(old(self).structure_view(), final(self).structure_view(), topic@, element, r),
    {
        self.structure.insert(topic, element)
    }
}

/// Kind of a request to the platform device.
#[derive(Debug, Clone, Copy, PartialEq, Eq, Structural)]
pub enum RequestType {
    Create,
    Delete,
}

/// A request from a device to the platform device.
#[derive(Debug)]
pub struct InfoDevRequest {
    pub rtype: RequestType,
    pub name: String,
}

impl InfoDevRequest {
    /// A request of kind `rtype` for the device `name`.
    pub fn new(rtype: RequestType, name: String) -> (r: InfoDevRequest)
        ensures
            r.rtype == rtype,
            r.name == name,
    {
        InfoDevRequest { rtype: rtype, name: name }
    }
}

/// Pending requests and registered devices of the platform device; `H` is
/// the handle through which a registered device reports its status.
pub struct InfoDevs<H> {
    devs: Registry<H>,
    requests: Vec<InfoDevRequest>,
}

/// The kind and device name of each request.
pub open spec fn requests_view(requests: Seq<InfoDevRequest>) -> Seq<(RequestType, Seq<char>)> {
    Seq::new(requests.len(), |i: int| (requests[i].rtype, requests[i].name@))
}

impl<H> InfoDevs<H> {
    /// Registered devices, by name.
    pub closed spec fn devs_view(&self) -> Map<Seq<char>, H> {
        self.devs.view_map()
    }

    /// Pending requests, oldest first.
    pub closed spec fn requests_view(&self) -> Seq<(RequestType, Seq<char>)> {
        requests_view(self.requests@)
    }

    /// No device and no request.
    pub fn new() -> (d: InfoDevs<H>)
        ensures
            d.devs_view() == Map::<Seq<char>, H>::empty(),
            d.requests_view().len() == 0,
    {
        InfoDevs { devs: Registry::new(), requests: Vec::new() }
    }

    /// The registered devices.
    pub fn devs(&self) -> (r: &Registry<H>)
        ensures
            r.view_map() == self.devs_view(),
    {
        &self.devs
    }

    /// Queues a request to register the device `name`.
    pub fn push_device_creation_request(&mut self, name: String)
        ensures
            final(self).requests_view() == old(self).requests_view().push((RequestType::Create, name@)),
            final(self).devs_view() == old(self).devs_view(),
    {
        self.requests.push(InfoDevRequest::new(RequestType::Create, name));
        assert(requests_view(self.requests@) =~= requests_view(old(self).requests@).push((RequestType::Create, name@)));
    }

    /// The handle of the device `name`, if it is registered.
    pub fn get_dev_info(&self, name: &str) -> (r: Option<&H>)
        ensures
            match r {
                Some(h) => self.devs_view().contains_key(name@) && *h == self.devs_view()[name@],
                None => !self.devs_view().contains_key(name@),
            },
    {
        self.devs.get(name)
    }

    /// Takes the most recent pending request, if any.
    pub fn pop_next_request(&mut self) -> (r: Option<InfoDevRequest>)
        ensures
            old(self).requests_view().len() == 0 ==> r is None && final(self).requests_view()
                == old(self).requests_view(),
            old(self).requests_view().len() > 0 ==> (r matches Some(q) && (q.rtype, q.name@)
                == old(self).requests_view().last()) && final(self).requests_view()
                == old(self).requests_view().drop_last(),
            final(self).devs_view() == old(self).devs_view(),
    {
        let r = self.requests.pop();
        proof {
            if old(self).requests@.len() > 0 {
                assert(requests_view(self.requests@) =~= requests_view(old(self).requests@).drop_last());
            }
        }
        r
    }

    /// Registers the device of `request` with the handle `status`, replacing
    /// any previous registration under that name.
    pub fn validate_creation_request(&mut self, request: InfoDevRequest, status: H)
        ensures
            final(self).devs_view() == old(self).devs_view().insert(request.name@, status),
            final(self).requests_view() == old(self).requests_view(),
    {
        self.devs.insert(request.name, status);
    }
}

} // verus!
