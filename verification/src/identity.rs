//! The identifier of this machine's firmware.

use vstd::prelude::*;
use vstd::string::*;
use vstd::utf8::encode_utf8;
use crate::digest::{hex, hex_of, sha256, sha256_of};
use crate::error::{maybe, text_view, told, Error, ErrorKind, ErrorView};

verus! {

/// The project name that stands for a machine without a readable embedded
/// controller.
pub const NO_CONTROLLER: &'static str = "none";

/// The controller project name that is hashed: the one read, or
/// [`NO_CONTROLLER`].
pub open spec fn project_or_none(ec_project: Option<Seq<char>>) -> Seq<char> {
    match ec_project {
        Some(project) => project,
        None => NO_CONTROLLER@,
    }
}

/// The identifier: the BIOS model, an underscore, and the SHA-256 of the
/// controller's project name in hexadecimal.
pub open spec fn identity_of(bios_model: Seq<char>, ec_project: Option<Seq<char>>) -> Seq<char> {
    bios_model + seq!['_'] + hex_of(sha256_of(encode_utf8(project_or_none(ec_project))))
}

/// What [`firmware_id`] answers: the identifier where the BIOS model was
/// read, else an identity failure that carries the reader's message.
pub open spec fn firmware_id_of(
    bios_model: Result<Seq<char>, Seq<char>>,
    ec_project: Option<Seq<char>>,
) -> Result<Seq<char>, ErrorView> {
    match bios_model {
        Ok(model) => Ok(identity_of(model, ec_project)),
        Err(detail) => Err(ErrorView { kind: ErrorKind::Identity, detail }),
    }
}

/// Derives the firmware identifier from what the host reports: the BIOS
/// model, which must have been read, and the embedded controller's project
/// name, which may be missing.
pub fn firmware_id(bios_model: Result<String, String>, ec_project: Option<String>) -> (id: Result<
    String,
    Error,
>)
    ensures
        text_view(id) == firmware_id_of(told(bios_model), maybe(ec_project)),
{
    match bios_model {
        Err(detail) => Err(Error::new(ErrorKind::Identity, detail)),
        Ok(model) => {
            let hash = match &ec_project {
                Some(project) => sha256(project.as_str().as_bytes()),
                None => sha256(NO_CONTROLLER.as_bytes()),
            };
            let mut id = model;
            proof {
                reveal_strlit("_");
            }
            id.append("_");
            id.append(hex(hash.as_slice()).as_str());
            assert("_"@ =~= seq!['_']);
            Ok(id)
        },
    }
}

/// The identifier depends on nothing but the two attributes read from the
/// host: equal attributes give equal identifiers.
pub proof fn identity_is_stable(
    first_model: Result<Seq<char>, Seq<char>>,
    first_project: Option<Seq<char>>,
    second_model: Result<Seq<char>, Seq<char>>,
    second_project: Option<Seq<char>>,
)
    requires
        first_model == second_model,
        first_project == second_project,
    ensures
        firmware_id_of(first_model, first_project) == firmware_id_of(second_model, second_project),
{
}

} // verus!
