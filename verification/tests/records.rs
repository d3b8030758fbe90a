use brolli_license::identity::Identity;
use brolli_license::record::{
    get_nft_metadata, get_provenance_trait, GetNftMetadata, LicenseMetadata,
};

fn sample() -> GetNftMetadata {
    GetNftMetadata {
        metadata: Identity::new([4u8; 32]),
        license_metadata: LicenseMetadata {
            name: "Parasol".to_string(),
            image_uri: "ipfs://image".to_string(),
            provenance_cid: "ipfs://provenance".to_string(),
            owner: Identity::new([1u8; 32]),
            mint: Identity::new([2u8; 32]),
            token_id: 17,
        },
    }
}

#[test]
fn nft_metadata_shows_the_record() {
    let response = get_nft_metadata(&sample());
    assert_eq!(response.name, "Brolli Parasol");
    assert_eq!(response.description, "For BUIDLers");
    assert_eq!(response.image, "ipfs://image");
    assert_eq!(response.provenance_cid, "ipfs://provenance");
    assert_eq!(response.token_id, 17);
    assert_eq!(response.owner, Identity::new([1u8; 32]));
    assert_eq!(response.mint, Identity::new([2u8; 32]));
}

#[test]
fn nft_metadata_of_a_nameless_record() {
    let mut ctx = sample();
    ctx.license_metadata.name = String::new();
    assert_eq!(get_nft_metadata(&ctx).name, "Brolli ");
}

#[test]
fn provenance_trait_names_the_reference() {
    let provenance = get_provenance_trait(&sample());
    assert_eq!(provenance.trait_type, "Provenance CID");
    assert_eq!(provenance.value, "ipfs://provenance");
}

#[test]
fn record_space() {
    assert_eq!(LicenseMetadata::SPACE, 484);
}

#[test]
fn a_record_is_cloned_field_by_field() {
    let record = sample().license_metadata;
    let copy = record.clone();
    assert_eq!(copy.name, record.name);
    assert_eq!(copy.image_uri, record.image_uri);
    assert_eq!(copy.provenance_cid, record.provenance_cid);
    assert_eq!(copy.owner, record.owner);
    assert_eq!(copy.mint, record.mint);
    assert_eq!(copy.token_id, record.token_id);
}
