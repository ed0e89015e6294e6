use clipboard_queue::digest::digest;
use clipboard_queue::errors::DecodeFault;
use clipboard_queue::format::Format;
use clipboard_queue::record::Data;

fn bitmap(width: u32, height: u32, bgra: [u8; 4]) -> Vec<u8> {
    let mut raw = vec![0u8; 40];
    raw[4..8].copy_from_slice(&width.to_le_bytes());
    raw[8..12].copy_from_slice(&height.to_le_bytes());
    for _ in 0..(width as usize * height as usize) {
        raw.extend_from_slice(&bgra);
    }
    raw
}

#[test]
fn new_record_is_blank() {
    let d = Data::new(Format::UnicodeText);
    assert_eq!(d.get_type(), Format::UnicodeText);
    assert!(d.get_content().is_empty());
    assert_eq!(d.get_md5(), digest(&Vec::new()));
    assert_eq!(d.get_data(), "");
    let img = d.get_image();
    assert_eq!((img.width(), img.height()), (0, 0));
    assert!(img.pixels().is_empty());
}

#[test]
fn set_raw_stores_bytes_and_digest() {
    let mut d = Data::new(Format::AnsiText);
    assert_eq!(d.set_raw(b"hello\0".to_vec()), Ok(()));
    assert_eq!(d.get_content(), b"hello\0".to_vec());
    assert_eq!(d.get_md5(), digest(&b"hello\0".to_vec()));
    assert_eq!(d.get_type(), Format::AnsiText);
    assert_eq!(d.get_image().pixels().len(), 0);
    assert_eq!(d.set_raw(b"world\0".to_vec()), Ok(()));
    assert_eq!(d.get_content(), b"world\0".to_vec());
    assert_eq!(d.get_md5(), digest(&b"world\0".to_vec()));
}

#[test]
fn set_raw_on_text_never_faults() {
    let mut d = Data::new(Format::UnicodeText);
    assert_eq!(d.set_raw(Vec::new()), Ok(()));
    assert_eq!(d.set_raw(vec![1, 2, 3]), Ok(()));
    assert_eq!(d.get_content(), vec![1, 2, 3]);
}

#[test]
fn set_raw_decodes_a_bitmap() {
    let mut d = Data::new(Format::Bitmap);
    let raw = bitmap(2, 2, [10, 20, 30, 255]);
    assert_eq!(d.set_raw(raw.clone()), Ok(()));
    assert_eq!(d.get_content(), raw);
    assert_eq!(d.get_md5(), digest(&raw));
    let img = d.get_image();
    assert_eq!((img.width(), img.height()), (2, 2));
    assert_eq!(&img.pixels()[0..4], &[30, 20, 10, 255]);
    assert_eq!(&img.pixels()[12..16], &[30, 20, 10, 255]);
    assert_eq!(d.get_data(), "");
}

#[test]
fn set_raw_fault_leaves_the_record_alone() {
    let mut d = Data::new(Format::Bitmap);
    let good = bitmap(1, 1, [1, 2, 3, 4]);
    assert_eq!(d.set_raw(good.clone()), Ok(()));
    let mut cut = bitmap(2, 2, [9, 9, 9, 9]);
    cut.pop();
    assert_eq!(d.set_raw(cut), Err(DecodeFault::TruncatedPixels));
    assert_eq!(d.get_content(), good);
    assert_eq!(d.get_md5(), digest(&good));
    assert_eq!(d.get_image().pixels().as_slice(), &[3, 2, 1, 4]);
    assert_eq!(d.set_raw(vec![0u8; 5]), Err(DecodeFault::TruncatedHeader));
    assert_eq!(d.get_content(), good);
}

#[test]
fn set_data_trims() {
    let mut d = Data::new(Format::UnicodeText);
    d.set_data(String::from("  hello \r\n"));
    assert_eq!(d.get_data(), "hello");
    d.set_data(String::from("two words"));
    assert_eq!(d.get_data(), "two words");
    d.set_data(String::from("   "));
    assert_eq!(d.get_data(), "");
}

#[test]
fn set_data_keeps_payload() {
    let mut d = Data::new(Format::AnsiText);
    d.set_raw(b"abc".to_vec()).unwrap();
    let before = d.get_md5();
    d.set_data(String::from("abc"));
    assert_eq!(d.get_md5(), before);
    assert_eq!(d.get_content(), b"abc".to_vec());
    d.set_raw(b"abcd".to_vec()).unwrap();
    assert_eq!(d.get_data(), "abc");
}

#[test]
fn build_text_record() {
    let d = Data::build(Format::UnicodeText, b"h\0i\0\0\0".to_vec(), Some(String::from(" hi\n")))
        .unwrap();
    assert_eq!(d.get_type(), Format::UnicodeText);
    assert_eq!(d.get_content(), b"h\0i\0\0\0".to_vec());
    assert_eq!(d.get_md5(), digest(&b"h\0i\0\0\0".to_vec()));
    assert_eq!(d.get_data(), "hi");
    assert_eq!(d.get_image().pixels().len(), 0);
}

#[test]
fn build_text_record_without_text() {
    let d = Data::build(Format::AnsiText, b"x".to_vec(), None).unwrap();
    assert_eq!(d.get_data(), "");
    assert_eq!(d.get_content(), b"x".to_vec());
}

#[test]
fn build_bitmap_record_ignores_text() {
    let raw = bitmap(1, 2, [4, 5, 6, 7]);
    let d = Data::build(Format::Bitmap, raw.clone(), Some(String::from("ignored"))).unwrap();
    assert_eq!(d.get_type(), Format::Bitmap);
    assert_eq!(d.get_data(), "");
    assert_eq!(d.get_content(), raw);
    let img = d.get_image();
    assert_eq!((img.width(), img.height()), (1, 2));
    assert_eq!(img.pixels().as_slice(), &[6, 5, 4, 7, 6, 5, 4, 7]);
}

#[test]
fn build_faults_only_on_bad_bitmaps() {
    assert_eq!(
        Data::build(Format::Bitmap, vec![0u8; 10], None).unwrap_err(),
        DecodeFault::TruncatedHeader
    );
    let mut cut = bitmap(3, 3, [0, 0, 0, 0]);
    cut.truncate(60);
    assert_eq!(
        Data::build(Format::Bitmap, cut.clone(), None).unwrap_err(),
        DecodeFault::TruncatedPixels
    );
    assert!(Data::build(Format::UnicodeText, cut.clone(), None).is_ok());
    assert!(Data::build(Format::AnsiText, vec![0u8; 10], None).is_ok());
}

#[test]
fn duplicate_copies_everything() {
    let raw = bitmap(2, 1, [1, 2, 3, 4]);
    let d = Data::build(Format::Bitmap, raw.clone(), None).unwrap();
    let c = d.duplicate();
    assert_eq!(c.get_type(), d.get_type());
    assert_eq!(c.get_content(), raw);
    assert_eq!(c.get_md5(), d.get_md5());
    assert_eq!(c.get_image().pixels(), d.get_image().pixels());
    let t = Data::build(Format::AnsiText, b"t".to_vec(), Some(String::from("t"))).unwrap();
    let u = t.clone();
    assert_eq!(u.get_data(), "t");
    assert_eq!(u.get_content(), b"t".to_vec());
}

#[test]
fn large_bitmap_record_has_a_small_preview() {
    let raw = bitmap(300, 150, [10, 20, 30, 255]);
    let d = Data::build(Format::Bitmap, raw, None).unwrap();
    let img = d.get_image();
    assert_eq!((img.width(), img.height()), (150, 75));
    assert_eq!(img.pixels().len(), 45000);
}
