pub use crate::unpacker_error::ErrorInformation;
pub use crate::unpacker_error::UnityPackageReaderError;
pub use crate::unity_asset_file::UnityAssetFile;
pub use crate::unity_package::UnityPackage;
