pub mod subscription;
pub mod version;
