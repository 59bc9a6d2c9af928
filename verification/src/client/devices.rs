//! The choice of an audio device by its name. The devices are looked at in
//! the order that the audio host lists them; the name of each one is asked
//! for in turn, and a device whose name cannot be had stops the search.
use vstd::prelude::*;

use crate::client::error::ClientError;
use crate::text::{push_text, string_from};

verus! {

/// The outcome of a search from position `i` on: the position of the first
/// device named `name`, or the error that ends the search (its context and
/// its cause).
pub open spec fn device_search(
    names: Seq<Result<String, String>>,
    name: Seq<char>,
    i: int,
) -> Result<int, (Seq<char>, Option<Seq<char>>)>
    decreases names.len() - i,
{
    if i < 0 || i >= names.len() {
        Err(("device not found: "@ + name, None))
    } else {
        match names[i] {
            Err(cause) => Err(("fail to get device name"@, Some(cause@))),
            Ok(n) => if n@ == name {
                Ok(i)
            } else {
                device_search(names, name, i + 1)
            },
        }
    }
}

/// Whether the devices at positions `lo..hi` all have a name, and none of
/// those names is exactly `name`.
pub open spec fn none_named(names: Seq<Result<String, String>>, name: Seq<char>, lo: int, hi: int) -> bool {
    forall|j: int|
        lo <= j < hi ==> match #[trigger] names[j] {
            Ok(m) => m@ != name,
            Err(_) => false,
        }
}

/// What a search from `start` finds: a position holding exactly `name`, with
/// no device before it holding that name or lacking one; or the first device
/// whose name could not be had, with its cause, no earlier device holding
/// `name`; or, when every device has a name and none is exactly `name`, the
/// error `device not found: <name>`.
pub proof fn lemma_device_search_outcome(names: Seq<Result<String, String>>, name: Seq<char>, start: int)
    requires
        0 <= start <= names.len(),
    ensures
        match device_search(names, name, start) {
            Ok(i) => start <= i < names.len() && (match names[i] {
                Ok(n) => n@ == name,
                Err(_) => false,
            }) && none_named(names, name, start, i),
            Err((context, Some(cause))) => context == "fail to get device name"@ && exists|k: int|
                start <= k < names.len() && none_named(names, name, start, k) && (match #[trigger] names[k] {
                    Ok(_) => false,
                    Err(c) => c@ == cause,
                }),
            Err((context, None)) => context == "device not found: "@ + name && none_named(
                names,
                name,
                start,
                names.len() as int,
            ),
        },
    decreases names.len() - start,
{
    if start < names.len() {
        match names[start] {
            Err(c) => {
                assert(none_named(names, name, start, start));
            },
            Ok(n) => {
                if n@ == name {
                    assert(none_named(names, name, start, start));
                } else {
                    lemma_device_search_outcome(names, name, start + 1);
                    match device_search(names, name, start + 1) {
                        Ok(i) => {
                            assert(none_named(names, name, start, i));
                        },
                        Err((context, Some(cause))) => {
                            let k = choose|k: int|
                                start + 1 <= k < names.len() && none_named(names, name, start + 1, k) && (
                                match #[trigger] names[k] {
                                    Ok(_) => false,
                                    Err(c) => c@ == cause,
                                });
                            assert(none_named(names, name, start, k));
                        },
                        Err((context, None)) => {
                            assert(none_named(names, name, start, names.len() as int));
                        },
                    }
                }
            },
        }
    } else {
        assert(none_named(names, name, start, names.len() as int));
    }
}

/// What one device tells the search for a name: it is the one, the search
/// stops on an error, or the search goes on to the next device.
pub enum DeviceMatch {
    Found,
    Failed(ClientError),
    Next,
}

/// One step of the search for the device named `wanted`, on the name of the
/// next device (or the error met in asking for it, by its `Display`
/// rendering): found if the name is `wanted`, an error with the context
/// `fail to get device name` and that cause if the name could not be had,
/// and on to the next device otherwise.
pub fn match_device(name: &Result<String, String>, wanted: &str) -> (step: DeviceMatch)
    ensures
        match (*name, step) {
            (Err(cause), DeviceMatch::Failed(e)) => e.spec_context() == "fail to get device name"@
                && e.spec_source() == Some(cause@),
            (Ok(n), DeviceMatch::Found) => n@ == wanted@,
            (Ok(n), DeviceMatch::Next) => n@ != wanted@,
            _ => false,
        },
{
    match name {
        Err(cause) => DeviceMatch::Failed(ClientError::contextual("fail to get device name")(cause.clone())),
        Ok(n) => {
            let w = string_from(wanted);
            if *n == w {
                DeviceMatch::Found
            } else {
                DeviceMatch::Next
            }
        },
    }
}

/// The error that ends a search in which no device had the name `name`:
/// `device not found: <name>`, with no cause.
pub fn device_not_found(name: &str) -> (e: ClientError)
    ensures
        e.spec_context() == "device not found: "@ + name@,
        e.spec_source() == None::<Seq<char>>,
{
    let mut message = string_from("device not found: ");
    push_text(&mut message, name);
    ClientError::local(message.as_str())
}

/// Finds the device named `name` among the devices whose names (or the
/// errors met in asking for them, by their `Display` rendering) are given in
/// the host's order: the position of the first device with that name. The
/// search stops with `fail to get device name` at a device whose name could
/// not be had, and ends with `device not found: <name>` if no device has it.
pub fn find_device(names: &Vec<Result<String, String>>, name: &str) -> (found: Result<usize, ClientError>)
    ensures
        match (found, device_search(names@, name@, 0)) {
            (Ok(i), Ok(j)) => i == j,
            (Err(e), Err((context, cause))) => e.spec_context() == context && e.spec_source()
                == cause,
            _ => false,
        },
        found matches Ok(i) ==> i < names@.len() && (match names@[i as int] {
            Ok(n) => n@ == name@,
            Err(_) => false,
        }) && none_named(names@, name@, 0, i as int),
        found matches Err(e) ==> (e.spec_source() is None <==> none_named(
            names@,
            name@,
            0,
            names@.len() as int,
        )),
        found matches Err(e) ==> (e.spec_source() is None ==> e.spec_context()
            == "device not found: "@ + name@),
        found matches Err(e) ==> (e.spec_source() is Some ==> e.spec_context()
            == "fail to get device name"@ && exists|k: int|
            0 <= k < names@.len() && none_named(names@, name@, 0, k) && (match #[trigger] names@[k] {
                Ok(_) => false,
                Err(c) => Some(c@) == e.spec_source(),
            })),
{
    proof {
        lemma_device_search_outcome(names@, name@, 0);
    }
    let mut i: usize = 0;
    while i < names.len()
        invariant
            i <= names.len(),
            device_search(names@, name@, 0) == device_search(names@, name@, i as int),
        decreases names.len() - i,
    {
        proof {
            lemma_device_search_outcome(names@, name@, 0);
        }
        match match_device(&names[i], name) {
            DeviceMatch::Found => {
                return Ok(i);
            },
            DeviceMatch::Failed(e) => {
                return Err(e);
            },
            DeviceMatch::Next => {},
        }
        i = i + 1;
    }
    Err(device_not_found(name))
}

} // verus!
