//! Checks and path resolution on the way from the IPC channel to the live players.
use vstd::prelude::*;

use crate::ipc::{InstanceId, INSTANCE_COUNT};
use crate::text::{decimal_string, string_chars, trim_chars};

verus! {

broadcast use vstd::string::group_string_axioms;

pub open spec fn live_range_text(instance_id: nat, live_instance_count: nat) -> Seq<char> {
    "instance "@ + crate::text::decimal_digits(instance_id) + " is outside configured live range 0.."@
        + crate::text::decimal_digits(live_instance_count)
}

pub open spec fn wire_range_text(instance_id: nat) -> Seq<char> {
    "instance "@ + crate::text::decimal_digits(instance_id) + " is outside 0.."@
        + crate::text::decimal_digits(INSTANCE_COUNT as nat)
}

/// An instance ID must be one the wire addresses and below the configured count.
pub fn validate_live_instance_id(instance_id: InstanceId, live_instance_count: usize) -> (result:
    Result<(), String>)
    ensures
        instance_id >= INSTANCE_COUNT ==> (result matches Err(e) && e@ == wire_range_text(
            instance_id as nat,
        )),
        instance_id < INSTANCE_COUNT && instance_id >= live_instance_count ==> (result matches Err(
            e,
        ) && e@ == live_range_text(instance_id as nat, live_instance_count as nat)),
        instance_id < INSTANCE_COUNT && instance_id < live_instance_count ==> result is Ok,
{
    if instance_id as usize >= INSTANCE_COUNT {
        let mut message = crate::text::owned("instance ");
        message.append(decimal_string(instance_id as u64).as_str());
        message.append(" is outside 0..");
        message.append(decimal_string(INSTANCE_COUNT as u64).as_str());
        return Err(message);
    }
    if instance_id as usize >= live_instance_count {
        let mut message = crate::text::owned("instance ");
        message.append(decimal_string(instance_id as u64).as_str());
        message.append(" is outside configured live range 0..");
        message.append(decimal_string(live_instance_count as u64).as_str());
        return Err(message);
    }
    Ok(())
}

/// Some component of the path (split at `/` and `\`) is a `.syx` cartridge name, in
/// the same sense as for `.vvp` names.
pub open spec fn spec_is_cartridge_patch_path(patch: Seq<char>) -> bool {
    exists|end: int| #[trigger] cartridge_name_ends_at(patch, end)
}

pub open spec fn cartridge_name_ends_at(patch: Seq<char>, end: int) -> bool {
    &&& 5 <= end <= patch.len()
    &&& (end == patch.len() || crate::vvp::is_path_separator(patch[end]))
    &&& !crate::vvp::is_path_separator(patch[end - 5])
    &&& crate::text::ascii_lower(patch.subrange(end - 4, end)) == ".syx"@
}

/// Whether `patch` names a voice in a DX7 cartridge (`Bank.syx/Voice`).
pub fn is_cartridge_patch_path(patch: &str) -> (cartridge: bool)
    ensures
        cartridge == spec_is_cartridge_patch_path(patch@),
{
    let chars = string_chars(patch);
    let n = chars.len();
    let extension = string_chars(".syx");
    proof {
        reveal_strlit(".syx");
    }
    let mut end: usize = 5;
    while end <= n
        invariant
            n == chars@.len(),
            chars@ == patch@,
            extension@ == ".syx"@,
            5 <= end,
            forall|e: int| 5 <= e < end ==> !cartridge_name_ends_at(patch@, e),
        decreases n + 1 - end,
    {
        let closes = end == n || chars[end] == '/' || chars[end] == '\\';
        if closes && chars[end - 5] != '/' && chars[end - 5] != '\\' {
            let tail = crate::text::sub_chars(&chars, end - 4, end);
            let lower = crate::text::lowercase_chars(&tail);
            if crate::text::chars_equal(&lower, &extension) {
                assert(cartridge_name_ends_at(patch@, end as int));
                return true;
            }
        }
        if end == n {
            assert forall|e: int| !cartridge_name_ends_at(patch@, e) by {
                if 5 <= e <= end {
                }
            }
            return false;
        }
        end = end + 1;
    }
    proof {
        assert forall|e: int| !cartridge_name_ends_at(patch@, e) by {
            if 5 <= e < end {
            }
        }
    }
    false
}

/// Where relative patch paths are looked up: patch files of the state-file plugins
/// under one directory, DX7 cartridges under another.
#[derive(Clone, Debug, PartialEq, Eq)]
pub struct PatchBases {
    pub state_base: Option<String>,
    pub cartridge_base: Option<String>,
}

pub open spec fn option_view(value: Option<String>) -> Option<Seq<char>> {
    match value {
        Some(v) => Some(v@),
        None => None,
    }
}

impl PatchBases {
    pub fn from_bases(state_base: Option<&str>, cartridge_base: Option<&str>) -> (bases: PatchBases)
        ensures
            option_view(bases.state_base) == (match state_base {
                Some(s) => Some(s@),
                None => None,
            }),
            option_view(bases.cartridge_base) == (match cartridge_base {
                Some(s) => Some(s@),
                None => None,
            }),
    {
        PatchBases {
            state_base: match state_base {
                Some(s) => Some(crate::text::owned(s)),
                None => None,
            },
            cartridge_base: match cartridge_base {
                Some(s) => Some(crate::text::owned(s)),
                None => None,
            },
        }
    }

    /// The directory a relative `patch` is looked up in: chosen by the patch's form.
    pub open spec fn spec_base_for(&self, patch: Seq<char>) -> Option<Seq<char>> {
        if spec_is_cartridge_patch_path(patch) {
            option_view(self.cartridge_base)
        } else {
            option_view(self.state_base)
        }
    }

    pub fn base_for(&self, patch: &str) -> (base: Option<&str>)
        ensures
            match base {
                Some(b) => self.spec_base_for(patch@) == Some(b@),
                None => self.spec_base_for(patch@) is None,
            },
    {
        let chosen = if is_cartridge_patch_path(patch) {
            &self.cartridge_base
        } else {
            &self.state_base
        };
        match chosen {
            Some(b) => Some(b.as_str()),
            None => None,
        }
    }
}

/// `Path::join` on Unix: an absolute `path` replaces `base`; otherwise a `/` goes
/// between them unless `base` is empty or already ends with one.
pub open spec fn spec_join(base: Seq<char>, path: Seq<char>) -> Seq<char> {
    if path.len() > 0 && path[0] == '/' {
        path
    } else if base.len() == 0 || base.last() == '/' {
        base + path
    } else {
        base + "/"@ + path
    }
}

/// A blank patch is no patch; a relative one is resolved against the base for its
/// form, when there is one.
pub open spec fn spec_resolve_live_patch(patch: Option<Seq<char>>, bases: PatchBases) -> Option<
    Seq<char>,
> {
    match patch {
        None => None,
        Some(p) => if crate::text::trimmed(p).len() == 0 {
            None
        } else {
            match bases.spec_base_for(p) {
                Some(base) => if !(p.len() > 0 && p[0] == '/') {
                    Some(spec_join(base, p))
                } else {
                    Some(p)
                },
                None => Some(p),
            }
        },
    }
}

pub fn resolve_live_patch(patch: Option<String>, bases: &PatchBases) -> (resolved: Option<String>)
    ensures
        option_view(resolved) == spec_resolve_live_patch(option_view(patch), *bases),
{
    let p = match patch {
        None => return None,
        Some(p) => p,
    };
    let chars = string_chars(p.as_str());
    if trim_chars(&chars).len() == 0 {
        return None;
    }
    let absolute = chars.len() > 0 && chars[0] == '/';
    match bases.base_for(p.as_str()) {
        Some(base) => if !absolute {
            let base_chars = string_chars(base);
            let mut joined = crate::text::owned(base);
            if !(base_chars.len() == 0 || base_chars[base_chars.len() - 1] == '/') {
                joined.append("/");
            }
            joined.append(p.as_str());
            proof {
                reveal_strlit("/");
            }
            Some(joined)
        } else {
            Some(p)
        },
        None => Some(p),
    }
}

/// The generation after `current`: wrapping, and never 0.
pub open spec fn spec_next_generation(current: u64) -> u64 {
    let next = vstd::wrapping::u64_specs::wrapping_add(current, 1);
    if next == 0 {
        1
    } else {
        next
    }
}

pub fn next_generation(current: u64) -> (next: u64)
    ensures
        next == spec_next_generation(current),
        next != 0,
        next != current,
{
    let next = current.wrapping_add(1);
    if next == 0 {
        1
    } else {
        next
    }
}

} // verus!
