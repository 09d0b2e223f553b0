use smartclock::storage::{
    decode_version, decode_wifi, encode_version, encode_wifi, init_storage_area,
    storage_needs_init, u32_from_le, VersionStorage, WifiStorage, STORAGE_INIT_TAG,
};

#[test]
fn version_record_round_trips() {
    let v = VersionStorage {
        version: 7,
        init_tag: STORAGE_INIT_TAG,
    };
    let bytes = encode_version(&v);
    assert_eq!(bytes.len(), 8);
    let back = decode_version(&bytes);
    assert_eq!(back, v);
}

#[test]
fn version_words_are_little_endian() {
    let v = VersionStorage {
        version: 1,
        init_tag: 0x1234abcd,
    };
    let bytes = encode_version(&v);
    assert_eq!(bytes, vec![1, 0, 0, 0, 0xcd, 0xab, 0x34, 0x12]);
    assert_eq!(u32_from_le(&bytes[4..8]), 0x1234abcd);
}

#[test]
fn wifi_record_round_trips() {
    let w = WifiStorage {
        wifi_ssid: b"home-network".to_vec(),
        wifi_password: b"secret123".to_vec(),
        wifi_finish: true,
    };
    let bytes = encode_wifi(&w);
    assert_eq!(bytes.len(), 67);
    let back = decode_wifi(&bytes).expect("own encoding decodes");
    assert_eq!(back.wifi_ssid, w.wifi_ssid);
    assert_eq!(back.wifi_password, w.wifi_password);
    assert_eq!(back.wifi_finish, w.wifi_finish);
}

#[test]
fn corrupt_wifi_record_is_refused() {
    let w = WifiStorage {
        wifi_ssid: b"net".to_vec(),
        wifi_password: b"pw".to_vec(),
        wifi_finish: false,
    };
    let mut bytes = encode_wifi(&w);
    bytes[0] = 40; // ssid length beyond the slot
    assert!(decode_wifi(&bytes).is_none());
    let mut bytes2 = encode_wifi(&w);
    bytes2[66] = 9; // flag neither 0 nor 1
    assert!(decode_wifi(&bytes2).is_none());
}

#[test]
fn init_storage_area_writes_the_defaults() {
    let mut flash = vec![0xffu8; 100];
    init_storage_area(&mut flash);
    assert_eq!(flash.len(), 100);
    let version = decode_version(&flash[0..8]);
    assert_eq!(version.version, 1);
    assert_eq!(version.init_tag, STORAGE_INIT_TAG);
    assert!(!storage_needs_init(&version));
    let wifi = decode_wifi(&flash[8..75]).expect("default record decodes");
    assert!(wifi.wifi_ssid.is_empty());
    assert!(wifi.wifi_password.is_empty());
    assert!(!wifi.wifi_finish);
    assert!(
        flash[75..].iter().all(|&b| b == 0xff),
        "bytes past the area are untouched"
    );
}

#[test]
fn blank_flash_needs_initialization() {
    let blank = vec![0u8; 8];
    let version = decode_version(&blank);
    assert!(storage_needs_init(&version));
}
