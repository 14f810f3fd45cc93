//! Description of a device: its name, model and manufacturer.
use vstd::prelude::*;
use crate::json::{JsonValue, JsonView, json_view};

verus! {

/// A device: its name, model, manufacturer and settings.
pub struct Device {
    name: String,
    model: String,
    manufacturer: String,
    device_settings: JsonValue,
    connector_settings: JsonValue,
}

impl Device {
    /// Name, model and manufacturer.
    pub closed spec fn identity_view(&self) -> (Seq<char>, Seq<char>, Seq<char>) {
        (self.name@, self.model@, self.manufacturer@)
    }

    /// Device and connector settings.
    pub closed spec fn settings_view(&self) -> (JsonView, JsonView) {
        (json_view(self.device_settings), json_view(self.connector_settings))
    }

    pub fn name(&self) -> (n: &String)
        ensures
            n@ == self.identity_view().0,
    {
        &self.name
    }

    pub fn model(&self) -> (m: &String)
        ensures
            m@ == self.identity_view().1,
    {
        &self.model
    }

    pub fn manufacturer(&self) -> (m: &String)
        ensures
            m@ == self.identity_view().2,
    {
        &self.manufacturer
    }
}

/// Builder of a device description; the name is required.
pub struct DeviceBuilder {
    name: Option<String>,
    model: String,
    manufacturer: String,
}

/// The message of a build without name.
pub open spec fn name_required_msg() -> Seq<char> {
    "Device name is required"@
}

impl DeviceBuilder {
    pub closed spec fn name_view(&self) -> Option<Seq<char>> {
        match self.name {
            Some(n) => Some(n@),
            None => None,
        }
    }

    pub closed spec fn model_view(&self) -> Seq<char> {
        self.model@
    }

    pub closed spec fn manufacturer_view(&self) -> Seq<char> {
        self.manufacturer@
    }

    /// No name, model and manufacturer `Unknown`.
    pub fn new() -> (b: DeviceBuilder)
        ensures
            b.name_view() is None,
            b.model_view() == "Unknown"@,
            b.manufacturer_view() == "Unknown"@,
    {
        DeviceBuilder { name: None, model: String::from_str("Unknown"), manufacturer: String::from_str("Unknown") }
    }

    pub fn with_name(self, name: String) -> (b: DeviceBuilder)
        ensures
            b.name_view() == Some(name@),
            b.model_view() == self.model_view(),
            b.manufacturer_view() == self.manufacturer_view(),
    {
        let mut b = self;
        b.name = Some(name);
        b
    }

    pub fn with_model(self, model: String) -> (b: DeviceBuilder)
        ensures
            b.name_view() == self.name_view(),
            b.model_view() == model@,
            b.manufacturer_view() == self.manufacturer_view(),
    {
        let mut b = self;
        b.model = model;
        b
    }

    pub fn with_manufacturer(self, manufacturer: String) -> (b: DeviceBuilder)
        ensures
            b.name_view() == self.name_view(),
            b.model_view() == self.model_view(),
            b.manufacturer_view() == manufacturer@,
    {
        let mut b = self;
        b.manufacturer = manufacturer;
        b
    }

    /// The device described so far, with null settings; an error without name.
    pub fn build(&self) -> (r: Result<Device, &'static str>)
        ensures
            match self.name_view() {
                Some(n) => r matches Ok(d) && d.identity_view() == (n, self.model_view(), self.manufacturer_view())
                    && d.settings_view() == (JsonView::Null, JsonView::Null),
                None => r matches Err(m) && m@ == name_required_msg(),
            },
    {
        if let Some(name) = &self.name {
            Ok(
                Device {
                    name: name.clone(),
                    model: self.model.clone(),
                    manufacturer: self.manufacturer.clone(),
                    device_settings: JsonValue::Null,
                    connector_settings: JsonValue::Null,
                },
            )
        } else {
            Err("Device name is required")
        }
    }
}

} // verus!
