pub mod copy_blob_builder;
pub mod get_blob_metadata_builder;
pub mod get_blob_properties_builder;

pub use self::copy_blob_builder::CopyBlobBuilder;
pub use self::get_blob_metadata_builder::GetBlobMetadataBuilder;
pub use self::get_blob_properties_builder::GetBlobPropertiesBuilder;
