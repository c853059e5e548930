use miimic::error::{render_source, resource_source};
use miimic::resource::ResourceKind;
use miimic::{Error, MiiFormat};

#[test]
fn contextual_errors_preserve_their_source() {
    let error = render_source(
        String::from("test operation failed"),
        std::io::Error::other("root cause"),
    );
    assert_eq!(error.to_string(), "rendering failed: test operation failed: root cause");
    let source = error.source().expect("contextual error should have a source");
    assert_eq!(source.to_string(), "root cause");
    let source: &(dyn std::error::Error + 'static) = source;
    assert!(source.downcast_ref::<std::io::Error>().is_some());

    let resource = resource_source(
        String::from("test resource failed"),
        std::io::Error::other("resource cause"),
    );
    assert_eq!(
        resource.source().expect("resource error should have a source").to_string(),
        "resource cause"
    );
}

#[test]
fn messages_describe_each_error() {
    assert_eq!(
        Error::InvalidEncoding.to_string(),
        "Mii data is neither valid hexadecimal nor supported base64"
    );
    assert_eq!(
        Error::UnsupportedDataLength(45).to_string(),
        "unsupported Mii data length: 45 bytes"
    );
    assert_eq!(
        Error::InvalidMii { field: "eye_color", value: 255, min: 0, max: 99 }.to_string(),
        "invalid Mii data: eye_color=255; expected 0..=99"
    );
    assert_eq!(
        Error::InvalidMiiChecksum(MiiFormat::RflStoreData).to_string(),
        "invalid RflStoreData Mii data: CRC-16 checksum mismatch"
    );
    assert_eq!(
        Error::UnsupportedResource {
            kind: ResourceKind::Texture,
            part: "glass",
            index: 20,
            available: 20,
        }
        .to_string(),
        "selected resource archive has no texture glass[20] (available entries: 20)"
    );
    assert_eq!(
        Error::InvalidResource(String::from("bad")).to_string(),
        "invalid FFL resource: bad"
    );
    assert_eq!(
        Error::UntrustedResourceArchive { sha256: String::from("ab") }.to_string(),
        "AFL 2.3 high resource archive is not trusted (SHA-256: ab)"
    );
    assert_eq!(
        Error::Io(std::io::Error::other("disk")).to_string(),
        "resource I/O failed: disk"
    );
    assert_eq!(
        Error::InvalidRequest(String::from("no")).to_string(),
        "invalid render request: no"
    );
    assert_eq!(
        Error::FeatureUnavailable("Wii U body assets").to_string(),
        "feature is not implemented yet: Wii U body assets"
    );
    assert_eq!(Error::Render(String::from("x")).to_string(), "rendering failed: x");
    assert!(Error::Render(String::from("x")).source().is_none());
    assert!(Error::Io(std::io::Error::other("disk")).source().is_some());
}

#[test]
fn resource_sizes_widen_without_loss() {
    assert_eq!(miimic::error::usize_from_u32(u32::MAX).unwrap(), u32::MAX as usize);
    assert_eq!(miimic::error::usize_from_u32(0).unwrap(), 0);
}
