//! The permissions that recording needs. Nothing is granted before it has
//! been asked for, and asking always succeeds.

use crate::text::str_eq;
use vstd::prelude::*;
use vstd::string::*;

verus! {

/// Whether the screen may be recorded: not before it has been asked for.
pub fn check_screen_recording_permission() -> (r: bool)
    ensures
        !r,
{
    false
}

/// Asks for permission to record the screen.
pub fn request_screen_recording_permission() -> (r: bool)
    ensures
        r,
{
    true
}

/// Whether the camera may be used: not before it has been asked for.
pub fn check_camera_permission() -> (r: bool)
    ensures
        !r,
{
    false
}

/// Asks for permission to use the camera.
pub fn request_camera_permission() -> (r: bool)
    ensures
        r,
{
    true
}

/// Whether the microphone may be used: not before it has been asked for.
pub fn check_microphone_permission() -> (r: bool)
    ensures
        !r,
{
    false
}

/// Asks for permission to use the microphone.
pub fn request_microphone_permission() -> (r: bool)
    ensures
        r,
{
    true
}

/// Whether `recording_type` is one of the kinds of recording.
pub open spec fn is_recording_type(recording_type: Seq<char>) -> bool {
    recording_type == "screen"@ || recording_type == "webcam"@ || recording_type == "pip"@
}

/// What is missing for a recording of this kind, given what has been granted:
/// the first of screen, camera and microphone that the kind needs and that is
/// not granted, or that the kind is unknown.
pub open spec fn missing_permission(
    recording_type: Seq<char>,
    screen: bool,
    camera: bool,
    microphone: bool,
) -> Option<Seq<char>> {
    if recording_type == "screen"@ {
        if !screen {
            Some("Screen recording permission not granted"@)
        } else {
            None
        }
    } else if recording_type == "webcam"@ {
        if !camera {
            Some("Camera permission not granted"@)
        } else if !microphone {
            Some("Microphone permission not granted"@)
        } else {
            None
        }
    } else if recording_type == "pip"@ {
        if !screen {
            Some("Screen recording permission not granted"@)
        } else if !camera {
            Some("Camera permission not granted"@)
        } else if !microphone {
            Some("Microphone permission not granted"@)
        } else {
            None
        }
    } else {
        Some("Unknown recording type: "@ + recording_type)
    }
}

/// What is missing for a recording of this kind, given what has been granted.
pub fn check_granted(recording_type: &str, screen: bool, camera: bool, microphone: bool) -> (r:
    Result<(), String>)
    ensures
        r is Ok <==> missing_permission(recording_type@, screen, camera, microphone) is None,
        r matches Err(m) ==> Some(m@) == missing_permission(
            recording_type@,
            screen,
            camera,
            microphone,
        ),
{
    if str_eq(recording_type, "screen") {
        if !screen {
            return Err(String::from_str("Screen recording permission not granted"));
        }
    } else if str_eq(recording_type, "webcam") {
        if !camera {
            return Err(String::from_str("Camera permission not granted"));
        }
        if !microphone {
            return Err(String::from_str("Microphone permission not granted"));
        }
    } else if str_eq(recording_type, "pip") {
        if !screen {
            return Err(String::from_str("Screen recording permission not granted"));
        }
        if !camera {
            return Err(String::from_str("Camera permission not granted"));
        }
        if !microphone {
            return Err(String::from_str("Microphone permission not granted"));
        }
    } else {
        let mut m = String::from_str("Unknown recording type: ");
        m.append(recording_type);
        return Err(m);
    }
    Ok(())
}

/// Checks the permissions that a recording of this kind needs.
pub fn check_permissions_for_recording_type(recording_type: &str) -> (r: Result<(), String>)
    ensures
        r matches Err(m) && Some(m@) == missing_permission(recording_type@, false, false, false),
{
    check_granted(
        recording_type,
        check_screen_recording_permission(),
        check_camera_permission(),
        check_microphone_permission(),
    )
}

/// Asks for the permissions that a recording of this kind needs: this
/// succeeds for every kind of recording, and fails for anything else.
pub fn request_permissions_for_recording_type(recording_type: &str) -> (r: Result<(), String>)
    ensures
        r is Ok <==> is_recording_type(recording_type@),
        r matches Err(m) ==> m@ == "Unknown recording type: "@ + recording_type@,
{
    if str_eq(recording_type, "screen") {
        if !request_screen_recording_permission() {
            return Err(String::from_str("Failed to request screen recording permission"));
        }
    } else if str_eq(recording_type, "webcam") {
        if !request_camera_permission() {
            return Err(String::from_str("Failed to request camera permission"));
        }
        if !request_microphone_permission() {
            return Err(String::from_str("Failed to request microphone permission"));
        }
    } else if str_eq(recording_type, "pip") {
        if !request_screen_recording_permission() {
            return Err(String::from_str("Failed to request screen recording permission"));
        }
        if !request_camera_permission() {
            return Err(String::from_str("Failed to request camera permission"));
        }
        if !request_microphone_permission() {
            return Err(String::from_str("Failed to request microphone permission"));
        }
    } else {
        let mut m = String::from_str("Unknown recording type: ");
        m.append(recording_type);
        return Err(m);
    }
    Ok(())
}

} // verus!
