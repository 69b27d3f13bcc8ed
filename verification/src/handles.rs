//! Handles to objects that live on the graphics device.
//!
//! The library carries these values from the step that yields them to the
//! step that needs them and never looks inside.

use vstd::prelude::*;

verus! {

/// `web_sys::WebGlProgram`, a linked shader program. Nothing is claimed of
/// it: the type is only made known so that values of it can be held.
#[verifier::external_type_specification]
#[verifier::external_body]
pub struct ExWebGlProgram(web_sys::WebGlProgram);

/// `web_sys::WebGlShader`, one compiled shader stage. Nothing is claimed of
/// it: the type is only made known so that values of it can be held.
#[verifier::external_type_specification]
#[verifier::external_body]
pub struct ExWebGlShader(web_sys::WebGlShader);

} // verus!
