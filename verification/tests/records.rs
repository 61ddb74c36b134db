use rollup_http_server::errors::{device_error_message, transaction_error_message, ServiceError};
use rollup_http_server::records::{validate_voucher, Voucher, ADDRESS_SIZE};
use rollup_http_server::requests::{
    AdvanceMetadata, AdvanceRequest, InspectRequest, RequestKind, RollupRequest,
};

fn voucher_to(destination: &str) -> Voucher {
    Voucher { destination: destination.to_string(), payload: vec![1, 2, 3] }
}

#[test]
fn valid_destination_passes_validation() {
    let v = voucher_to("0x0123456789abcdef0123456789abcdef01234567");
    assert_eq!(v.destination.len(), 2 * ADDRESS_SIZE + 2);
    assert!(v.has_valid_destination());
    assert_eq!(validate_voucher(&v), Ok(()));
}

#[test]
fn destination_without_prefix_is_rejected() {
    // Right length, but the two leading bytes are not "0x".
    let v = voucher_to("000123456789abcdef0123456789abcdef01234567");
    assert!(!v.has_valid_destination());
    assert_eq!(validate_voucher(&v), Err(ServiceError::InvalidAddress));
}

#[test]
fn destination_of_wrong_length_is_rejected() {
    let short = voucher_to("0x0123456789abcdef0123456789abcdef0123456");
    assert_eq!(validate_voucher(&short), Err(ServiceError::InvalidAddress));
    let long = voucher_to("0x0123456789abcdef0123456789abcdef012345678");
    assert_eq!(validate_voucher(&long), Err(ServiceError::InvalidAddress));
    let empty = voucher_to("");
    assert_eq!(validate_voucher(&empty), Err(ServiceError::InvalidAddress));
}

#[test]
fn request_type_names_match_the_public_shape() {
    let advance = RollupRequest::Advance(AdvanceRequest {
        metadata: AdvanceMetadata {
            msg_sender: "0x0123456789abcdef0123456789abcdef01234567".to_string(),
            epoch_index: 0,
            input_index: 4,
            block_number: 88,
            timestamp: 1000,
        },
        payload: vec![0xde, 0xad],
    });
    assert_eq!(advance.kind(), RequestKind::Advance);
    assert_eq!(advance.request_type_name(), "advance_state");

    let inspect = RollupRequest::Inspect(InspectRequest { payload: vec![] });
    assert_eq!(inspect.kind(), RequestKind::Inspect);
    assert_eq!(inspect.request_type_name(), "inspect_state");
}

#[test]
fn error_descriptions_are_stable() {
    assert_eq!(ServiceError::InvalidAddress.description(), "address not valid");
    assert_eq!(
        ServiceError::InvalidFinishStatus.description(),
        "status must be 'accept' or 'reject'"
    );
    assert_eq!(ServiceError::UnrecognizedRequestType.description(), "unrecognized request type");
    assert_eq!(ServiceError::OutOfBounds.description(), "Offset and size exceed memory bounds");
    assert_eq!(ServiceError::FlushFailed.description(), "Failed to flush the changes");
}

#[test]
fn device_failures_embed_the_kernel_error_text() {
    assert_eq!(
        device_error_message("unable to insert voucher", "EBADF: bad file descriptor"),
        "unable to insert voucher, error details: 'EBADF: bad file descriptor'"
    );
    assert_eq!(
        transaction_error_message("error performing initial finish request", "EIO"),
        "error performing initial finish request: `EIO`"
    );
}
