pub mod email;
pub mod organization_id;
pub mod password;
pub mod profile_image_url;
pub mod ulid;
pub mod user_id;
pub mod validation_helpers;

pub use email::{Email, EmailError};
pub use organization_id::OrganizationId;
pub use password::{HashError, HashedPassword, Password, PasswordError};
pub use profile_image_url::ProfileImageUrl;
pub use ulid::IdParseError;
pub use user_id::UserId;
pub mod organization_role;
pub mod project_view_mode;

pub use organization_role::OrganizationRole;
pub use project_view_mode::ProjectViewMode;
