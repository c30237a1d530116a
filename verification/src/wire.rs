//! Declaration of the outside codec's packet type, so that values of
//! it can pass through the trusted wrappers in `codec`.

use vstd::prelude::*;

verus! {

#[verifier::external_type_specification]
#[verifier::external_body]
pub struct ExMqttrsPacket<'a>(mqttrs::Packet<'a>);

} // verus!
