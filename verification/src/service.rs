//! The names of iceoryx2 services.

use vstd::prelude::*;

verus! {

/// Why iceoryx2 refuses a service name.
#[derive(Debug, Clone, Copy, PartialEq, Eq, Structural)]
pub enum NameFault {
    /// The name is empty, or holds NUL or a character that is not ASCII.
    InvalidContent,
    /// The name takes more bytes than a service name can hold.
    ExceedsMaximumLength,
}

/// How many bytes a service name can hold.
pub const MAX_SERVICE_NAME_LENGTH: usize = 255;

/// Whether every byte is ASCII and none is NUL.
pub open spec fn plain_ascii(bytes: Seq<u8>) -> bool {
    forall|i: int| 0 <= i < bytes.len() ==> 0 < #[trigger] bytes[i] < 128
}

/// What is wrong with a service name, if anything is. The length is looked at
/// before the content.
pub open spec fn name_fault(name: Seq<char>) -> Option<NameFault> {
    if name.len() == 0 {
        Some(NameFault::InvalidContent)
    } else if vstd::utf8::encode_utf8(name).len() > MAX_SERVICE_NAME_LENGTH {
        Some(NameFault::ExceedsMaximumLength)
    } else if !plain_ascii(vstd::utf8::encode_utf8(name)) {
        Some(NameFault::InvalidContent)
    } else {
        None
    }
}

/// Whether iceoryx2 takes `name` for a service name.
pub open spec fn is_service_name(name: Seq<char>) -> bool {
    name_fault(name) is None
}

/// Calls `<&str as TryInto<iceoryx2::service::service_name::ServiceName>>::try_into`
/// and hands back the text of the name that it made.
///
/// Claimed of it: the empty name is refused as `InvalidContent`, a name of more
/// than 255 bytes as `ExceedsMaximumLength`, another name with a NUL or a byte
/// from 128 on as `InvalidContent`; every other name is accepted and keeps its
/// text.
#[verifier::external_body]
fn make_service_name(name: &str) -> (r: Result<String, NameFault>)
    ensures
        match r {
            Ok(text) => name_fault(name@) is None && text@ == name@,
            Err(fault) => name_fault(name@) == Some(fault),
        },
{
    let made: Result<iceoryx2::service::service_name::ServiceName, _> = name.try_into();
    match made {
        Ok(name) => Ok(name.as_str().to_string()),
        Err(iceoryx2::service::service_name::ServiceNameError::InvalidContent) => Err(
            NameFault::InvalidContent,
        ),
        Err(iceoryx2::service::service_name::ServiceNameError::ExceedsMaximumLength) => Err(
            NameFault::ExceedsMaximumLength,
        ),
    }
}

/// The name of the service that carries `name`: the same text, where iceoryx2
/// takes it for a service name.
pub fn service_name(name: &str) -> (r: Result<String, NameFault>)
    ensures
        match r {
            Ok(text) => name_fault(name@) is None && text@ == name@,
            Err(fault) => name_fault(name@) == Some(fault),
        },
{
    make_service_name(name)
}

impl NameFault {
    /// The bare name of the fault.
    pub open spec fn label_spec(self) -> Seq<char> {
        match self {
            NameFault::InvalidContent => "InvalidContent"@,
            NameFault::ExceedsMaximumLength => "ExceedsMaximumLength"@,
        }
    }

    /// The bare name of the fault.
    pub fn label(&self) -> (r: &'static str)
        ensures
            r@ == self.label_spec(),
    {
        match self {
            NameFault::InvalidContent => "InvalidContent",
            NameFault::ExceedsMaximumLength => "ExceedsMaximumLength",
        }
    }
}

/// A service name is taken exactly if it is not empty, takes at most 255 bytes,
/// and each of these is ASCII and not NUL. One that is too long is refused for
/// that, whatever it holds; every other that is refused is refused for its
/// content.
pub proof fn law_which_names_are_taken(name: Seq<char>)
    ensures
        ({
            let bytes = vstd::utf8::encode_utf8(name);
            let plain = forall|i: int| 0 <= i < bytes.len() ==> 0 < #[trigger] bytes[i] < 128;
            &&& is_service_name(name) <==> name.len() > 0 && bytes.len() <= 255 && plain
            &&& name_fault(name) == Some(NameFault::ExceedsMaximumLength) <==> bytes.len() > 255
            &&& name_fault(name) == Some(NameFault::InvalidContent) <==> bytes.len() <= 255 && (
            name.len() == 0 || !plain)
            &&& is_service_name(name) <==> name_fault(name) is None
        }),
{
    if name.len() == 0 {
        assert(vstd::utf8::encode_utf8(name).len() == 0);
    }
}

/// Every row of 1 to 255 ASCII characters without a NUL is a service name.
pub proof fn law_plain_names_are_taken(name: Seq<char>)
    requires
        0 < name.len() <= 255,
        forall|i: int| 0 <= i < name.len() ==> 0 < (#[trigger] name[i]) as int <= 127,
    ensures
        is_service_name(name),
{
    assert forall|i: int| 0 <= i < name.len() implies '\0' <= #[trigger] name[i] <= '\u{7f}' by {
        assert(0 < name[i] as int <= 127);
    }
    vstd::utf8::is_ascii_chars_encode_utf8(name);
    let bytes = vstd::utf8::encode_utf8(name);
    assert forall|i: int| 0 <= i < bytes.len() implies 0 < #[trigger] bytes[i] < 128 by {
        assert(0 < name[i] as int <= 127);
        assert(bytes[i] == name[i] as u8);
    }
}

/// The words for the two faults.
pub proof fn law_faults_have_their_own_words(fault: NameFault)
    ensures
        fault is InvalidContent ==> fault.label_spec() == "InvalidContent"@,
        fault is ExceedsMaximumLength ==> fault.label_spec() == "ExceedsMaximumLength"@,
{
}

} // verus!
