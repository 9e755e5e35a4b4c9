pub mod copy_blob_response;
pub mod get_blob_metadata_response;
pub mod get_blob_properties_response;

pub use self::copy_blob_response::CopyBlobResponse;
pub use self::get_blob_metadata_response::GetBlobMetadataResponse;
pub use self::get_blob_properties_response::GetBlobPropertiesResponse;
