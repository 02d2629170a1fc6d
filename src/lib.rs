pub mod delivery;
pub mod laws;
pub mod refresher;
pub mod store;

pub use refresher::{ModifiedTime, PdfReader};
pub use store::{ArtifactStore, Subscription, Update};
