//! What the whole input method agrees on: its identity, the way candidates
//! are numbered, and the two small rules of its bootstrap.

use vstd::prelude::*;

verus! {

/// Name of the input method as the user sees it.
pub const IME_NAME: &'static str = "Ajemi";

/// Name of the input method where only ASCII is accepted.
pub const IME_NAME_ASCII: &'static str = "Ajemi";

/// Class identifier of the input method.
pub const IME_ID: u128 = 0xC93D3D59_2FAC_40E0_ABC6_A3658749E2FA;

/// Language the input method registers for: en-US.
pub const LANG_ID: u16 = 0x409;

/// Identifier of its language profile.
pub const LANG_PROFILE_ID: u128 = 0xA411A7FC_A082_4B8A_8741_AA4A72613933;

/// Identifier of its language bar item.
pub const LANGBAR_ITEM_ID: u128 = 0x95288B2B_4D3B_4D4A_BF5B_9342E4F75E4D;

/// Identifier of its display attribute.
pub const DISPLAY_ATTR_ID: u128 = 0xE42647FB_4BF0_4570_9013_768487C5CAAE;

/// Index of the tray icon for a light theme.
pub const LITE_TRAY_ICON_INDEX: u32 = 0;

/// Index of the tray icon for a dark theme.
pub const DARK_TRAY_ICON_INDEX: u32 = 1;

/// Most candidates one list may hold.
pub const CANDI_NUM: usize = 5;

/// Code reported for a failure of which the system names no cause.
pub const E_FAIL: i32 = -2147467259;

/// The code under which a failure is reported: the one the system gave, or
/// [`E_FAIL`] where it gave none.
pub open spec fn failure_code(last_error: i32) -> i32 {
    if last_error == 0 {
        E_FAIL
    } else {
        last_error
    }
}

/// Computes [`failure_code`].
pub fn failure(last_error: i32) -> (code: i32)
    ensures
        code == failure_code(last_error),
{
    if last_error == 0 {
        E_FAIL
    } else {
        last_error
    }
}

/// The index label of the candidate at a position of the list, as UTF-16
/// code units: its one-based number, a full stop and a space.
pub open spec fn index_label_spec(position: int) -> Seq<u16> {
    seq![(0x31 + position) as u16, 0x2Eu16, 0x20u16]
}

/// Renders the index label of the candidate at `position`.
pub fn index_label(position: usize) -> (label: Vec<u16>)
    requires
        position < CANDI_NUM,
    ensures
        label@ == index_label_spec(position as int),
{
    let digit: u16 = 0x31 + position as u16;
    let mut label: Vec<u16> = Vec::new();
    label.push(digit);
    label.push(0x2E);
    label.push(0x20);
    proof {
        assert(label@ =~= index_label_spec(position as int));
    }
    label
}

/// Position of the first zero byte, or the length where there is none.
pub open spec fn first_nul(buffer: Seq<u8>) -> int
    decreases buffer.len(),
{
    if buffer.len() == 0 {
        0
    } else if buffer[0] == 0 {
        0
    } else {
        1 + first_nul(buffer.drop_first())
    }
}

/// The path of the module, from the buffer that the system filled with it
/// and ended with a zero byte: the bytes before the first zero. An empty
/// path means that the system found none, and is reported as a failure with
/// the system's code for it.
pub fn dll_path(buffer: &Vec<u8>, last_error: i32) -> (path: Result<Vec<u8>, i32>)
    requires
        buffer@.contains(0u8),
    ensures
        first_nul(buffer@) < buffer.len(),
        match path {
            Ok(bytes) => first_nul(buffer@) > 0 && bytes@ == buffer@.take(first_nul(buffer@)),
            Err(code) => first_nul(buffer@) == 0 && code == failure_code(last_error),
        },
{
    let mut path: Vec<u8> = Vec::new();
    let mut k: usize = 0;
    proof {
        assert(buffer@.skip(0) =~= buffer@);
    }
    while k < buffer.len() && buffer[k] != 0
        invariant
            k <= buffer.len(),
            path@ == buffer@.take(k as int),
            forall|i: int| 0 <= i < k ==> buffer@[i] != 0,
            first_nul(buffer@) == k + first_nul(buffer@.skip(k as int)),
        decreases buffer.len() - k,
    {
        proof {
            assert(buffer@.skip(k as int).drop_first() =~= buffer@.skip(k as int + 1));
            assert(buffer@.take(k as int).push(buffer@[k as int]) =~= buffer@.take(k as int + 1));
        }
        path.push(buffer[k]);
        k += 1;
    }
    proof {
        if k == buffer.len() {
            let w = choose|i: int| 0 <= i < buffer@.len() && buffer@[i] == 0u8;
            assert(buffer@[w] != 0);
        }
        assert(buffer@.skip(k as int)[0] == buffer@[k as int]);
    }
    if k == 0 {
        Err(failure(last_error))
    } else {
        Ok(path)
    }
}

/// The tray icon that goes with the theme: for the setting that tells
/// whether the system uses a light theme, or for its absence. Only a
/// setting of one means light; without a setting the light icon is taken.
pub fn tray_icon_index(light_theme: Option<u32>) -> (index: u32)
    ensures
        index == (match light_theme {
            Some(setting) => if setting == 1 {
                LITE_TRAY_ICON_INDEX
            } else {
                DARK_TRAY_ICON_INDEX
            },
            None => LITE_TRAY_ICON_INDEX,
        }),
{
    match light_theme {
        Some(setting) => if setting == 1 {
            LITE_TRAY_ICON_INDEX
        } else {
            DARK_TRAY_ICON_INDEX
        },
        None => LITE_TRAY_ICON_INDEX,
    }
}

} // verus!
