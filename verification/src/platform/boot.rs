//! Decisions of the platform's boot services: loading the connection
//! information, asking the user for a default one, and storing what a hunt
//! found.
use vstd::prelude::*;
use crate::json::{JsonValue, JsonView, json_view, array_view};
use super::connection_info::{ErrorType, ConnectionInfoError};

verus! {

/// What the loading process does once the import of the connection
/// information file has returned.
#[derive(Debug, Clone, Copy, PartialEq, Eq, Structural)]
pub enum LoadingStep {
    /// Keep the imported information.
    Keep,
    /// There is no file: ask the user whether to create a default one.
    AskUser,
    /// Any other error stops the loading.
    Fail,
}

/// The message of a loading that fails.
pub const UNMANAGED_ERROR: &'static str = "unmanaged error";

/// The step that follows an import: keep what was read, ask the user when
/// the file does not exist, fail on any other error.
pub fn loading_step<T>(import: &Result<T, ConnectionInfoError>) -> (s: LoadingStep)
    ensures
        s == match import {
            Ok(_) => LoadingStep::Keep,
            Err(e) => if e.err_type == ErrorType::FileDoesNotExist { LoadingStep::AskUser } else { LoadingStep::Fail },
        },
{
    match import {
        Ok(_) => LoadingStep::Keep,
        Err(e) => match e.err_type {
            ErrorType::FileDoesNotExist => LoadingStep::AskUser,
            _ => LoadingStep::Fail,
        },
    }
}

/// The message given when the user declines the default information.
pub const NO_CONNECTION_INFO: &'static str = "No connection info set ! stopping the platform...";

/// Whether the first byte of the user's answer accepts the creation of a
/// default connection information: only `y` and `Y` do.
pub fn accepts_default_creation(answer: u8) -> (yes: bool)
    ensures
        yes == (answer == 0x79u8 || answer == 0x59u8),
{
    answer == 0x79u8 || answer == 0x59u8
}

/// The devices that the hunters found, in the order of the hunters.
pub open spec fn found_view(results: Seq<Option<JsonView>>) -> Seq<JsonView>
    decreases results.len(),
{
    if results.len() == 0 {
        Seq::empty()
    } else {
        let before = found_view(results.drop_last());
        match results.last() {
            Some(d) => before.push(d),
            None => before,
        }
    }
}

/// The content of the hunters' results.
pub open spec fn results_view(results: Seq<Option<JsonValue>>) -> Seq<Option<JsonView>> {
    results.map_values(|r: Option<JsonValue>| match r {
        Some(d) => Some(json_view(d)),
        None => None,
    })
}

/// The device store after a hunt: the array of the devices found, in the
/// order of the hunters that found them.
pub fn hunt_store(results: Vec<Option<JsonValue>>) -> (store: JsonValue)
    ensures
        json_view(store) == JsonView::Array(found_view(results_view(results@))),
{
    let ghost orig = results@;
    let mut rest = results;
    let mut found: Vec<JsonValue> = Vec::new();
    let ghost mut i: int = 0;
    proof {
        assert(results_view(orig.take(0)) =~= Seq::<Option<JsonView>>::empty());
        assert(orig.skip(0) =~= orig);
    }
    while rest.len() > 0
        invariant
            0 <= i <= orig.len(),
            rest@ == orig.skip(i),
            array_view(found@) == found_view(results_view(orig.take(i))),
        decreases rest@.len(),
    {
        let r = rest.remove(0);
        let ghost before = found@;
        proof {
            assert(r == orig[i]);
            assert(rest@ =~= orig.skip(i + 1));
            assert(results_view(orig.take(i + 1)).drop_last() =~= results_view(orig.take(i)));
        }
        match r {
            Some(d) => {
                let ghost dv = json_view(d);
                found.push(d);
                assert(found@.drop_last() =~= before);
                assert(array_view(found@) == array_view(before).push(dv));
            },
            None => {},
        }
        proof {
            i = i + 1;
        }
    }
    proof {
        assert(orig.take(i) =~= orig);
    }
    JsonValue::Array(found)
}

} // verus!
