//! Who this machine is to its peers.

use crate::device::DeviceId;
use crate::net::pairing::{self, generate_static_key, Keypair, PairingError};
use crate::text;
use vstd::prelude::*;
use vstd::string::*;

verus! {

/// What is kept of this machine's identity.
pub struct Identity {
    pub device_id: DeviceId,
    pub display_name: String,
    pub os: String,
    pub noise_static_priv: Vec<u8>,
    pub noise_static_pub: Vec<u8>,
}

/// The name of a machine; one whose name cannot be told is called after the
/// program.
pub open spec fn name_or_default(hostname: Option<Seq<char>>) -> Seq<char> {
    match hostname {
        Some(h) => h,
        None => "mineshare"@,
    }
}

impl Identity {
    /// The identity of a machine with these keys.
    pub fn from_keys(
        keys: Keypair,
        device_id: DeviceId,
        hostname: Option<String>,
        os: &str,
    ) -> (r: Identity)
        ensures
            r.device_id == device_id,
            r.display_name@ == name_or_default(text::optional(hostname)),
            r.os@ == os@,
            r.noise_static_priv == keys.private,
            r.noise_static_pub == keys.public,
    {
        let display_name = match hostname {
            Some(h) => h,
            None => String::from_str("mineshare"),
        };
        Identity {
            device_id,
            display_name,
            os: String::from_str(os),
            noise_static_priv: keys.private,
            noise_static_pub: keys.public,
        }
    }

    /// The identity that was read, or else a new one; the second part tells
    /// that it is new and has to be written to the disk.
    pub fn load_or_create(read: Option<Identity>, hostname: Option<String>, os: &str) -> (r: Result<
        (Identity, bool),
        PairingError,
    >)
        ensures
            match read {
                Some(id) => r == Ok::<(Identity, bool), PairingError>((id, false)),
                None => match r {
                    Ok((id, new)) => {
                        &&& new
                        &&& id.device_id.is_random()
                        &&& id.display_name@ == name_or_default(text::optional(hostname))
                        &&& id.os@ == os@
                        &&& id.noise_static_priv@.len() == 32
                        &&& id.noise_static_pub@ == pairing::public_key(id.noise_static_priv@)
                        &&& call_ensures(
                            generate_static_key,
                            (),
                            Ok::<Keypair, PairingError>(
                                (Keypair {
                                    private: id.noise_static_priv,
                                    public: id.noise_static_pub,
                                }),
                            ),
                        )
                    },
                    Err(e) => e == PairingError::Noise && call_ensures(
                        generate_static_key,
                        (),
                        Err::<Keypair, PairingError>(e),
                    ),
                },
            },
    {
        match read {
            Some(id) => Ok((id, false)),
            None => {
                let made = generate_static_key();
                assert(call_ensures(generate_static_key, (), made));
                match made {
                    Ok(keys) => Ok(
                        (Identity::from_keys(keys, DeviceId::new(), hostname, os), true),
                    ),
                    Err(e) => Err(e),
                }
            },
        }
    }
}

/// Whether the characters of a build are these: version, commit and day.
pub open spec fn build_text(version: Seq<char>, hash: Seq<char>, dirty: Seq<char>, day: Seq<char>) -> Seq<char> {
    version + " · "@ + hash + dirty + " · "@ + day
}

pub open spec fn short_build_text(version: Seq<char>, hash: Seq<char>, dirty: Seq<char>) -> Seq<char> {
    version + " · "@ + hash + dirty
}

/// Names a build: two machines that show the same were built from the same
/// commit. `dirty` marks a build with changes that were not committed.
pub fn build_id(version: &str, hash: &str, dirty: &str, day: &str) -> (r: String)
    ensures
        r@ == build_text(version@, hash@, dirty@, day@),
{
    build_id_short(version, hash, dirty).concat(" · ").concat(day)
}

/// The same without the day.
pub fn build_id_short(version: &str, hash: &str, dirty: &str) -> (r: String)
    ensures
        r@ == short_build_text(version@, hash@, dirty@),
{
    String::from_str(version).concat(" · ").concat(hash).concat(dirty)
}

/// An identity that was read is kept, and nothing is written; a machine is called
/// as its system calls it.
pub proof fn an_identity_is_kept(
    read: Identity,
    hostname: (Option<String>, String),
    os: &str,
    keys: Keypair,
    device_id: DeviceId,
    r: (Result<(Identity, bool), PairingError>, Identity),
)
    requires
        call_ensures(Identity::load_or_create, (Some(read), hostname.0, os), r.0),
        call_ensures(Identity::from_keys, (keys, device_id, Some(hostname.1), os), r.1),
    ensures
        r.0 == Ok::<(Identity, bool), PairingError>((read, false)),
        r.1.display_name@ == hostname.1@,
        r.1.device_id == device_id,
        r.1.noise_static_priv@ == keys.private@,
        r.1.noise_static_pub@ == keys.public@,
{
}

/// A build is told by its version, its commit and its changes, in this order, and
/// the longer form by its day as well.
pub proof fn a_build_tells_its_commit(
    version: &str,
    hash: &str,
    dirty: &str,
    day: &str,
    r: (String, String),
)
    requires
        call_ensures(build_id, (version, hash, dirty, day), r.0),
        call_ensures(build_id_short, (version, hash, dirty), r.1),
    ensures
        r.0@ == r.1@ + " · "@ + day@,
        r.1@.subrange(0, version@.len() as int) == version@,
        r.1@.subrange((version@.len() + " · "@.len()) as int, r.1@.len() as int) == hash@ + dirty@,
{
    assert(r.1@.subrange(0, version@.len() as int) =~= version@);
    assert(r.1@.subrange((version@.len() + " · "@.len()) as int, r.1@.len() as int) =~= hash@ + dirty@);
}

} // verus!
