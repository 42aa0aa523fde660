use nokozero::driver::{MapsError, parse_base_addr};
use nokozero::env::{Config, ConfigError, parse_headless};
use nokozero::headless::{
    Backing, D3DFMT_A8, D3DFMT_R5G6B5, D3DFMT_R8G8B8, D3DFMT_UNKNOWN, D3DFMT_X8R8G8B8,
    FakeSoundBuffer, bytes_per_pixel, lock_bytes, locked_span, normalize_pp, row_pitch,
    surface_bytes,
};
use nokozero::iat::{ImportRef, Scan, find_iat_slot, import_directory};
use nokozero::patch::{CallSite, NearBranchSite, Site, Stage, branch_bytes, branch_ok, disp32, rel32};
use nokozero::reader::{
    GamePtr, LaserKind, LaserList, List, bullet_is_lethal, curve_node_count, enemy_invulnerability,
    enemy_is_real, laser_kind,
};

#[test]
fn rel32_encodes_the_displacement_after_the_branch() {
    assert_eq!(disp32(0x1000, 0x1010), [0x10, 0, 0, 0]);
    assert_eq!(disp32(0x1010, 0x1000), [0xf0, 0xff, 0xff, 0xff]);
    assert_eq!(rel32(0xe8, 0x0040_22fa, 0x0040_1b20), [0xe8, 0x21, 0xf8, 0xff, 0xff]);
    let call = CallSite::new(0x0040_22fa, 0x0040_1b20, "call");
    assert_eq!(call.0.expected, [0xe8, 0x21, 0xf8, 0xff, 0xff]);
    let near = NearBranchSite::new(0x0047_13ec, 0x85, 0x0047_15a9, "mutex");
    assert_eq!(near.site.expected, [0x0f, 0x85, 0xb7, 0x01, 0x00, 0x00]);
    let forced = near.force();
    assert_eq!(forced.replacement, [0x90, 0xe9, 0xb7, 0x01, 0x00, 0x00]);
    assert_eq!(Site::new(0x10, [1u8, 2, 3], "s").after(), 0x13);
    assert_eq!(Stage::PreCheck.as_str(), "pre-check");
    assert_eq!(Stage::PostWrite.as_str(), "post-write");
}

#[test]
fn branch_bytes_pad_and_check() {
    let bytes = branch_bytes(0xe9, 0x0043_cc50, 0x1000_0000, 6);
    assert_eq!(bytes.len(), 6);
    assert_eq!(bytes[0], 0xe9);
    assert_eq!(bytes[5], 0x90);
    assert!(branch_ok(&bytes, &bytes, 0xe9, 0x0043_cc50, 0x1000_0000));
    assert!(!branch_ok(&bytes, &bytes, 0xe9, 0x0043_cc50, 0x1000_0001));
    let mut other = bytes.clone();
    other[5] = 0xcc;
    assert!(!branch_ok(&other, &bytes, 0xe9, 0x0043_cc50, 0x1000_0000));
}

/// A minimal PE image: one descriptor for `kernel32.dll` importing `CreateDialogParamA` by name
/// and ordinal 7.
fn image() -> Vec<u8> {
    let mut im = vec![0u8; 0x400];
    let put32 = |im: &mut Vec<u8>, at: usize, v: u32| im[at..at + 4].copy_from_slice(&v.to_le_bytes());
    im[0] = b'M';
    im[1] = b'Z';
    put32(&mut im, 0x3c, 0x80);
    put32(&mut im, 0x80, 0x4550);
    put32(&mut im, 0x80 + 0x80, 0x200); // import directory
    put32(&mut im, 0x80 + 0x84, 40);
    // descriptor 0 at 0x200; descriptor 1 (terminator) is zero.
    put32(&mut im, 0x200, 0x240); // original first thunk
    put32(&mut im, 0x200 + 12, 0x2c0); // name
    put32(&mut im, 0x200 + 16, 0x280); // first thunk
    put32(&mut im, 0x240, 0x300); // by name
    put32(&mut im, 0x244, 0x8000_0007); // by ordinal
    let name = b"CreateDialogParamA\0";
    im[0x302..0x302 + name.len()].copy_from_slice(name);
    let dll = b"KERNEL32.dll\0";
    im[0x2c0..0x2c0 + dll.len()].copy_from_slice(dll);
    im
}

#[test]
fn iat_slot_by_name_and_ordinal() {
    let im = image();
    assert_eq!(import_directory(&im), Some(0x200));
    let by_name = ImportRef::Name(b"createdialogparama".to_vec());
    assert_eq!(find_iat_slot(&im, &by_name), Scan::Found(0x280));
    let by_ordinal = ImportRef::Ordinal { dll: b"kernel32.DLL".to_vec(), ordinal: 7 };
    assert_eq!(find_iat_slot(&im, &by_ordinal), Scan::Found(0x284));
    let wrong_dll = ImportRef::Ordinal { dll: b"user32.dll".to_vec(), ordinal: 7 };
    assert_eq!(find_iat_slot(&im, &wrong_dll), Scan::NotFound);
    let missing = ImportRef::Name(b"Nope".to_vec());
    assert_eq!(find_iat_slot(&im, &missing), Scan::NotFound);
    let mut bad = im.clone();
    bad[0] = 0;
    assert_eq!(import_directory(&bad), None);
    assert_eq!(find_iat_slot(&bad, &missing), Scan::Malformed);
}

#[test]
fn headless_surfaces_and_sound() {
    assert_eq!(bytes_per_pixel(D3DFMT_X8R8G8B8), Some(4));
    assert_eq!(bytes_per_pixel(D3DFMT_R8G8B8), Some(3));
    assert_eq!(bytes_per_pixel(D3DFMT_R5G6B5), Some(2));
    assert_eq!(bytes_per_pixel(D3DFMT_A8), Some(1));
    assert_eq!(bytes_per_pixel(999), None);
    assert_eq!(row_pitch(641, 3), Some(1924));
    assert_eq!(row_pitch(640, 4), Some(2560));
    assert_eq!(row_pitch(u32::MAX, 2), None);
    assert_eq!(surface_bytes(2560, 0), Some(2560));
    assert_eq!(surface_bytes(2560, 480), Some(1_228_800));
    assert_eq!(surface_bytes(u32::MAX, 2), None);
    assert_eq!(normalize_pp(0, 480, D3DFMT_UNKNOWN), (640, 480, D3DFMT_X8R8G8B8));
    assert_eq!(normalize_pp(800, 600, D3DFMT_A8), (800, 600, D3DFMT_A8));
    assert_eq!(locked_span(None, 16, 4, 100), (0, 100));
    assert_eq!(locked_span(Some((1, 2, 3, 4)), 16, 4, 100), (36, 24));
    assert_eq!(locked_span(Some((-5, -5, 1, 0)), 16, 4, 100), (0, 88));
    assert_eq!(locked_span(Some((0, 3, 9, 3)), 16, 4, 100), (48, 0));
    assert_eq!(lock_bytes(10, 4, 0), 6);
    assert_eq!(lock_bytes(10, 12, 0), 0);
    assert_eq!(lock_bytes(10, 4, 3), 3);

    let b = Backing::new(0);
    assert_eq!(b.len(), 1);
    assert!(b.range_ok(0, 1));
    assert!(!b.range_ok(1, 0));
    assert!(!b.range_ok(0, 2));

    let mut s = FakeSoundBuffer::new(4000);
    assert_eq!(s.len(), 4000);
    assert_eq!(s.current_position(), (0, 2940));
    assert_eq!(s.current_position(), (2940, 1880));
    s.set_current_position(4001);
    assert_eq!(s.cursor, 1);
    assert_eq!(s.lock_spans(3500, 1000), (3500, 500, 500));
    assert_eq!(s.lock_spans(100, 9000), (100, 3900, 4000));
    assert_eq!(FakeSoundBuffer::new(0).len(), 1);
}

#[test]
fn reader_walks_and_classifies() {
    assert_eq!(GamePtr::from_addr(0), None);
    let head = GamePtr::from_addr(0x10).unwrap();
    let mut list = List::new(Some(head));
    assert_eq!(list.current(), Some(head));
    assert_eq!(list.advance(0, 0x20), None);
    assert_eq!(list.current(), GamePtr::from_addr(0x20));
    assert_eq!(list.advance(0x99, 0), GamePtr::from_addr(0x99));
    assert_eq!(list.current(), None);
    let mut lasers = LaserList::new(head);
    assert_eq!(lasers.advance(0x30), Some(head));
    assert_eq!(lasers.advance(0), None);
    assert!(bullet_is_lethal(1) && bullet_is_lethal(2) && !bullet_is_lethal(3));
    assert!(enemy_is_real(0x0080_0000, 0));
    assert!(enemy_is_real(0, 5));
    assert!(!enemy_is_real(0x10, 0));
    assert_eq!(enemy_invulnerability(0, -4), (0, false));
    assert_eq!(enemy_invulnerability(0x20, 0), (0, true));
    assert_eq!(enemy_invulnerability(0, 9), (9, true));
    assert_eq!(laser_kind(2), Some(LaserKind::Curve));
    assert_eq!(laser_kind(3), None);
    assert_eq!(curve_node_count(128), Some(128));
    assert_eq!(curve_node_count(129), None);
}

#[test]
fn headless_flag_spellings() {
    assert_eq!(parse_headless(b"1"), Some(true));
    assert_eq!(parse_headless(b"TrUe"), Some(true));
    assert_eq!(parse_headless(b"0"), Some(false));
    assert_eq!(parse_headless(b"FALSE"), Some(false));
    assert_eq!(parse_headless(b"yes"), None);
    let ok = Config::from_values(Some("127.0.0.1:9".to_string()), Some(b"true".to_vec())).ok().unwrap();
    assert_eq!(ok.connect_addr, "127.0.0.1:9");
    assert!(ok.headless);
    assert_eq!(
        Config::from_values(None, Some(b"maybe".to_vec())).err(),
        Some(vec![ConfigError::ConnectMissing, ConfigError::HeadlessInvalid])
    );
    assert_eq!(
        Config::from_values(Some(String::new()), None).err(),
        Some(vec![ConfigError::HeadlessMissing])
    );
}

#[test]
fn base_address_from_maps() {
    let maps = b"00010000-00011000 r--p 00000000 00:00 0 [heap]\n\
                 00400000-00401000 r--p 00000000 08:01 12 /games/th15.exe\n\
                 00401000-00500000 r-xp 00001000 08:01 12 /games/th15.exe\n";
    assert_eq!(parse_base_addr(maps), Ok(0x0040_0000));
    assert_eq!(parse_base_addr(b"1000-2000 r--p /lib/ld.so\n"), Err(MapsError::ExecutableNotFound));
    assert_eq!(parse_base_addr(b"zz-2000 th15.exe"), Err(MapsError::BadAddress));
    assert_eq!(parse_base_addr(b"  +7fAb-1 th15.exe"), Ok(0x7fab));
    assert_eq!(parse_base_addr(b""), Err(MapsError::ExecutableNotFound));
}
