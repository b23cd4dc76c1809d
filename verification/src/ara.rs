//! ARA (Audio Random Access) role flags and factory information.

use vstd::prelude::*;
use vstd::string::StringSliceAdditionalSpecFns;

use crate::text::{has_nul, nul_free};
use crate::util::{c_text_lossy, cstr_to_string};

verus! {

/// ARA plugin instance role flags.
#[derive(Debug, Clone, Copy)]
pub struct AraRoles(u32);

impl View for AraRoles {
    type V = u32;

    /// The bit set this value stands for.
    closed spec fn view(&self) -> u32 {
        self.0
    }
}

/// A valid role set: at least one role, and no bit outside the three role
/// flags.
pub open spec fn valid_role_bits(b: u32) -> bool {
    b != 0 && b & !(AraRoles::PLAYBACK_RENDERER | AraRoles::EDITOR_RENDERER | AraRoles::EDITOR_VIEW) == 0
}

impl AraRoles {
    pub const PLAYBACK_RENDERER: u32 = 1;
    pub const EDITOR_RENDERER: u32 = 2;
    pub const EDITOR_VIEW: u32 = 4;

    /// Every role value names at least one role and only known roles.
    #[verifier::type_invariant]
    spec fn roles_wf(self) -> bool {
        valid_role_bits(self.0)
    }

    /// All roles (playback + editor renderer + editor view).
    pub fn all() -> (r: Self)
        ensures
            r@ == (Self::PLAYBACK_RENDERER | Self::EDITOR_RENDERER | Self::EDITOR_VIEW),
            r@ == 7,
            r@ & Self::PLAYBACK_RENDERER == Self::PLAYBACK_RENDERER,
            r@ & Self::EDITOR_RENDERER == Self::EDITOR_RENDERER,
            r@ & Self::EDITOR_VIEW == Self::EDITOR_VIEW,
    {
        assert((1u32 | 2u32 | 4u32) == 7u32 && (7u32 & 1u32) == 1u32 && (7u32 & 2u32) == 2u32
            && (7u32 & 4u32) == 4u32 && (7u32 & !7u32) == 0u32) by (bit_vector);
        AraRoles(Self::PLAYBACK_RENDERER | Self::EDITOR_RENDERER | Self::EDITOR_VIEW)
    }

    /// Playback renderer only.
    pub fn playback() -> (r: Self)
        ensures
            r@ == Self::PLAYBACK_RENDERER,
    {
        assert((1u32 & !7u32) == 0u32 && (1u32 | 2u32 | 4u32) == 7u32) by (bit_vector);
        AraRoles(Self::PLAYBACK_RENDERER)
    }

    /// The raw role bits handed to the plugin: always a valid role set.
    pub fn bits(&self) -> (b: u32)
        ensures
            b == self@,
            valid_role_bits(b),
    {
        proof {
            use_type_invariant(self);
        }
        self.0
    }
}

/// Information about an ARA-capable plugin's factory.
#[derive(Debug, Clone)]
pub struct AraFactoryInfo {
    pub plugin_name: String,
    pub manufacturer: String,
    pub highest_supported_api: i32,
}

impl AraFactoryInfo {
    /// Builds the factory information from the C buffers the plugin filled,
    /// decoding both texts leniently.
    pub fn from_c_buffers(name_buf: &[i8], manufacturer_buf: &[i8], highest_supported_api: i32) -> (r: AraFactoryInfo)
        ensures
            r.plugin_name@ == c_text_lossy(name_buf@),
            r.manufacturer@ == c_text_lossy(manufacturer_buf@),
            r.highest_supported_api == highest_supported_api,
    {
        AraFactoryInfo {
            plugin_name: cstr_to_string(name_buf),
            manufacturer: cstr_to_string(manufacturer_buf),
            highest_supported_api,
        }
    }
}

/// Whether the name and persistent id of a new audio source or audio
/// modification can be handed to C; when not, the object is not created.
pub fn ara_object_names_valid(name: &str, persistent_id: &str) -> (ok: bool)
    ensures
        ok == (!has_nul(name.spec_bytes()) && !has_nul(persistent_id.spec_bytes())),
        ok == (!name@.contains('\0') && !persistent_id@.contains('\0')),
{
    nul_free(name) && nul_free(persistent_id)
}

/// The C flag that enables (1) or disables (0) sample access on an audio
/// source.
pub fn access_flag(enable: bool) -> (flag: i32)
    ensures
        flag == (if enable { 1i32 } else { 0i32 }),
{
    if enable {
        1
    } else {
        0
    }
}

} // verus!
