//! Suppressing the game's modal windows: the startup resolution dialog is answered on the spot,
//! and the real input DLL is loaded by its full system path.

use vstd::prelude::*;

verus! {

/// The resolution dialog's template and dialog procedure.
pub const DIALOG_TEMPLATE_ID: usize = 0xcb;
pub const DIALOG_PROC_VA: usize = 0x0047_3de0;
/// Controls of the resolution dialog.
pub const FULLSCREEN_CHECKBOX_ID: i32 = 0xcb;
/// 640x480.
pub const RES_RADIO_FIRST_ID: i32 = 0xcd;
/// 1280x960.
pub const RES_RADIO_LAST_ID: i32 = 0xcf;
pub const OK_BUTTON_ID: u32 = 0xd0;
/// The notification code of a button click.
pub const BN_CLICKED: u32 = 0;
/// The game's exit flag word and the bit that the dialog's OK sets.
pub const EXIT_FLAG_VA: usize = 0x004e_6d1c;
pub const EXIT_FLAG_BIT: u32 = 0x0008_0000;

/// The longest path the loader buffer holds, in UTF-16 units.
pub const MAX_PATH: usize = 260;

/// Whether a freshly created dialog is the game's resolution prompt, which the hook answers.
pub fn is_resolution_dialog(created: bool, template_id: usize, proc_va: usize) -> (r: bool)
    ensures
        r == (created && template_id == DIALOG_TEMPLATE_ID && proc_va == DIALOG_PROC_VA),
{
    created && template_id == DIALOG_TEMPLATE_ID && proc_va == DIALOG_PROC_VA
}

/// The `WM_COMMAND` parameter of a click on OK.
pub fn ok_click_wparam() -> (r: u32)
    ensures
        r == (BN_CLICKED << 16u32) | OK_BUTTON_ID,
        r == OK_BUTTON_ID,
{
    let r = (BN_CLICKED << 16u32) | OK_BUTTON_ID;
    assert(r == OK_BUTTON_ID) by (bit_vector)
        requires
            r == (0u32 << 16u32) | 0xd0u32,
    ;
    r
}

/// The exit flag word with the dialog's bit set.
pub fn with_exit_flag(prev: u32) -> (r: u32)
    ensures
        r == prev | EXIT_FLAG_BIT,
{
    prev | EXIT_FLAG_BIT
}

/// `\dinput8.dll` and its NUL, in UTF-16 units.
pub open spec fn dll_suffix() -> Seq<u16> {
    seq![
        0x5cu16,
        0x64u16,
        0x69u16,
        0x6eu16,
        0x70u16,
        0x75u16,
        0x74u16,
        0x38u16,
        0x2eu16,
        0x64u16,
        0x6cu16,
        0x6cu16,
        0u16,
    ]
}

/// The full path of the system's input DLL given the system directory, or `None` if the
/// directory is empty (the query failed) or the path would not fit [`MAX_PATH`] units.
pub fn system_dll_path(dir: &[u16]) -> (r: Option<Vec<u16>>)
    ensures
        match r {
            Some(p) => 0 < dir@.len() && dir@.len() + 13 <= MAX_PATH && p@ == dir@ + dll_suffix(),
            None => dir@.len() == 0 || dir@.len() + 13 > MAX_PATH,
        },
{
    let len = dir.len();
    if len == 0 || len > MAX_PATH - 13 {
        return None;
    }
    let mut out = vstd::slice::slice_to_vec(dir);
    let suffix: [u16; 13] = [0x5c, 0x64, 0x69, 0x6e, 0x70, 0x75, 0x74, 0x38, 0x2e, 0x64, 0x6c, 0x6c, 0];
    assert(suffix@ =~= dll_suffix());
    let mut k: usize = 0;
    while k < 13
        invariant
            k <= 13,
            suffix@ == dll_suffix(),
            out@ == dir@ + dll_suffix().take(k as int),
        decreases 13 - k,
    {
        out.push(suffix[k]);
        assert(dll_suffix().take(k + 1) =~= dll_suffix().take(k as int).push(dll_suffix()[k as int]));
        k += 1;
    }
    assert(dll_suffix().take(13) =~= dll_suffix());
    Some(out)
}

} // verus!
