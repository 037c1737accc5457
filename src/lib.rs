//! A client library for OCI distribution registries: the decisions that sit
//! between a caller and the wire (references, credentials, the choice of a
//! platform's manifest, the ordering and all-or-nothing rules of composite
//! transfers) stated and proved, with the transfers themselves left to the
//! calling application.

mod auth;
mod client;
mod error;
mod image;
mod platform;
mod push;
mod reference;

pub use auth::{get_auth, lemma_one_entry_per_host, AuthOptions, Credential, CredentialCache};
pub use client::{mount_message, protocol_for, Protocol};
pub use error::{ClientError, ErrorKind};
pub use image::{
    assemble_image, check_layers, collect_layers, NapiConfig, NapiImageData, NapiImageLayer, NapiPushResponse,
};
pub use platform::{platform_arch, platform_os, select_platform, IndexEntry, Platform};
pub use push::{lemma_manifest_after_all_blobs, PushSession, PushStep};
pub use reference::{parse_reference, ImageReference, ReferenceView};
