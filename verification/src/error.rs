//! The errors that the drive's operations answer with, and their HTTP statuses.
use vstd::prelude::*;

verus! {

/// What only the owners of a resource may do.
#[derive(Debug, Clone, Copy, PartialEq, Eq, Structural)]
pub enum OwnerOnlyAction {
    ViewPermissions,
    GrantPermissions,
    UpdatePermissions,
    RevokePermissions,
    TransferOwnership,
    ManageIrmPolicies,
    ManageShareLinks,
}

/// An error answered by an operation of the drive.
#[derive(Debug, Clone, Copy, PartialEq, Eq, Structural)]
pub enum ApiError {
    /// 403: the caller is not an owner of the resource, which the action
    /// needs.
    OwnersOnly(OwnerOnlyAction),
    /// 403: the caller has no access at all.
    AccessDenied,
    /// 403: the caller needs the owner or editor role.
    EditAccessRequired,
    /// 403: the download is restricted by an IRM policy.
    DownloadRestricted,
    /// 403: the caller is a member of the shared drive but not a manager.
    ManagerRequired,
    /// 403: the caller is not a member of the shared drive.
    NotDriveMember,
    /// 400: a folder name is empty after trimming.
    EmptyFolderName,
    /// 400: a file name is empty after trimming.
    EmptyFileName,
    /// 400: a shared drive name is empty.
    EmptyDriveName,
    /// 400: the owner role cannot be granted directly.
    CannotGrantOwner,
    /// 400: the owner role cannot be set directly.
    CannotSetOwner,
    /// 400: the role of the last owner cannot change.
    LastOwnerRoleChange,
    /// 400: the last owner's access cannot be revoked.
    LastOwnerRevoke,
    /// 400: ownership cannot be transferred to the caller.
    AlreadyOwner,
    /// 400: a shared drive role that does not exist.
    InvalidRole,
    /// 400: the last manager of a shared drive cannot be demoted.
    LastManagerDemote,
    /// 400: the last manager of a shared drive cannot be removed.
    LastManagerRemove,
    /// 400: a datetime that neither accepted format parses.
    InvalidDatetime,
    /// 400: a job status other than `C` or `E`.
    InvalidJobStatus,
    /// 400: a bulk download without file ids.
    NoFileIds,
    /// 404
    FolderNotFound,
    /// 404
    FileNotFound,
    /// 404
    ShortcutNotFound,
    /// 404
    PermissionNotFound,
    /// 404
    ShareLinkNotFound,
    /// 404: the share link exists but is disabled.
    ShareLinkDisabled,
    /// 404
    MemberNotFound,
    /// 404
    DriveNotFound,
    /// 404
    VersionNotFound,
    /// 404
    NotificationNotFound,
    /// 404
    FileNotInTrash,
    /// 404
    FolderNotInTrash,
    /// 409: the user already belongs to the shared drive.
    AlreadyMember,
    /// 410: the share link has expired.
    LinkExpired,
    /// 413: the upload would exceed the storage quota.
    QuotaExceeded,
    /// 429: the upload would exceed the daily upload cap.
    DailyLimitExceeded,
    /// 401: a missing, invalid or expired access token.
    InvalidToken,
    /// 401: a missing or wrong worker secret.
    InvalidWorkerSecret,
    /// 500: stored encrypted data shorter than its nonce.
    EncryptedTooShort,
    /// 500: the cipher refused to encrypt.
    EncryptFailed,
    /// 500: the cipher refused to decrypt (wrong key or tampered data).
    DecryptFailed,
    /// 500: the IRM policy to update is not in the store.
    PolicyMissing,
    /// 400: the file is not a valid ZIP archive.
    InvalidZip,
    /// 500: an entry of a ZIP archive could not be read.
    ZipEntryUnreadable,
    /// 500: the ZIP archive could not be written.
    ZipWriteFailed,
}

/// The HTTP status that answers each error.
pub open spec fn status_of(e: ApiError) -> u16 {
    match e {
        ApiError::OwnersOnly(_) | ApiError::AccessDenied | ApiError::EditAccessRequired
        | ApiError::DownloadRestricted | ApiError::ManagerRequired
        | ApiError::NotDriveMember => 403,
        ApiError::EmptyFolderName | ApiError::EmptyFileName | ApiError::EmptyDriveName
        | ApiError::CannotGrantOwner | ApiError::CannotSetOwner
        | ApiError::LastOwnerRoleChange | ApiError::LastOwnerRevoke | ApiError::AlreadyOwner
        | ApiError::InvalidRole | ApiError::LastManagerDemote | ApiError::LastManagerRemove
        | ApiError::InvalidDatetime | ApiError::InvalidJobStatus | ApiError::NoFileIds
        | ApiError::InvalidZip => 400,
        ApiError::FolderNotFound | ApiError::FileNotFound | ApiError::ShortcutNotFound
        | ApiError::PermissionNotFound | ApiError::ShareLinkNotFound
        | ApiError::ShareLinkDisabled | ApiError::MemberNotFound | ApiError::DriveNotFound
        | ApiError::VersionNotFound | ApiError::NotificationNotFound
        | ApiError::FileNotInTrash | ApiError::FolderNotInTrash => 404,
        ApiError::AlreadyMember => 409,
        ApiError::LinkExpired => 410,
        ApiError::QuotaExceeded => 413,
        ApiError::DailyLimitExceeded => 429,
        ApiError::InvalidToken | ApiError::InvalidWorkerSecret => 401,
        ApiError::EncryptedTooShort | ApiError::EncryptFailed | ApiError::DecryptFailed
        | ApiError::PolicyMissing | ApiError::ZipEntryUnreadable | ApiError::ZipWriteFailed => 500,
    }
}

/// The machine-readable code that answers each error.
pub open spec fn code_of(e: ApiError) -> Seq<char> {
    match e {
        ApiError::OwnersOnly(_) => "FORBIDDEN"@,
        ApiError::AccessDenied => "FORBIDDEN"@,
        ApiError::EditAccessRequired => "FORBIDDEN"@,
        ApiError::DownloadRestricted => "DOWNLOAD_RESTRICTED"@,
        ApiError::ManagerRequired => "FORBIDDEN"@,
        ApiError::NotDriveMember => "FORBIDDEN"@,
        ApiError::EmptyFolderName => "BAD_REQUEST"@,
        ApiError::EmptyFileName => "BAD_REQUEST"@,
        ApiError::EmptyDriveName => "BAD_REQUEST"@,
        ApiError::CannotGrantOwner => "BAD_REQUEST"@,
        ApiError::CannotSetOwner => "BAD_REQUEST"@,
        ApiError::LastOwnerRoleChange => "BAD_REQUEST"@,
        ApiError::LastOwnerRevoke => "BAD_REQUEST"@,
        ApiError::AlreadyOwner => "BAD_REQUEST"@,
        ApiError::InvalidRole => "BAD_REQUEST"@,
        ApiError::LastManagerDemote => "BAD_REQUEST"@,
        ApiError::LastManagerRemove => "BAD_REQUEST"@,
        ApiError::InvalidDatetime => "BAD_REQUEST"@,
        ApiError::InvalidJobStatus => "BAD_REQUEST"@,
        ApiError::NoFileIds => "BAD_REQUEST"@,
        ApiError::FolderNotFound => "NOT_FOUND"@,
        ApiError::FileNotFound => "NOT_FOUND"@,
        ApiError::ShortcutNotFound => "NOT_FOUND"@,
        ApiError::PermissionNotFound => "NOT_FOUND"@,
        ApiError::ShareLinkNotFound => "NOT_FOUND"@,
        ApiError::ShareLinkDisabled => "NOT_FOUND"@,
        ApiError::MemberNotFound => "NOT_FOUND"@,
        ApiError::DriveNotFound => "NOT_FOUND"@,
        ApiError::VersionNotFound => "NOT_FOUND"@,
        ApiError::NotificationNotFound => "NOT_FOUND"@,
        ApiError::FileNotInTrash => "NOT_FOUND"@,
        ApiError::FolderNotInTrash => "NOT_FOUND"@,
        ApiError::AlreadyMember => "CONFLICT"@,
        ApiError::LinkExpired => "LINK_EXPIRED"@,
        ApiError::QuotaExceeded => "QUOTA_EXCEEDED"@,
        ApiError::DailyLimitExceeded => "DAILY_LIMIT_EXCEEDED"@,
        ApiError::InvalidToken => "UNAUTHORIZED"@,
        ApiError::InvalidWorkerSecret => "UNAUTHORIZED"@,
        ApiError::EncryptedTooShort => "INTERNAL_ERROR"@,
        ApiError::EncryptFailed => "INTERNAL_ERROR"@,
        ApiError::DecryptFailed => "INTERNAL_ERROR"@,
        ApiError::PolicyMissing => "INTERNAL_ERROR"@,
        ApiError::InvalidZip => "INVALID_ZIP"@,
        ApiError::ZipEntryUnreadable => "INTERNAL_ERROR"@,
        ApiError::ZipWriteFailed => "INTERNAL_ERROR"@,
    }
}

/// The message that answers each error.
pub open spec fn message_of(e: ApiError) -> Seq<char> {
    match e {
        ApiError::OwnersOnly(a) => match a {
            OwnerOnlyAction::ViewPermissions => "Only owners can view permissions"@,
            OwnerOnlyAction::GrantPermissions => "Only owners can grant permissions"@,
            OwnerOnlyAction::UpdatePermissions => "Only owners can update permissions"@,
            OwnerOnlyAction::RevokePermissions => "Only owners can revoke permissions"@,
            OwnerOnlyAction::TransferOwnership => "Only owners can transfer ownership"@,
            OwnerOnlyAction::ManageIrmPolicies => "Only owners can manage IRM policies"@,
            OwnerOnlyAction::ManageShareLinks => "Only owners can manage share links"@,
        },
        ApiError::AccessDenied => "Access denied"@,
        ApiError::EditAccessRequired => "Edit access required"@,
        ApiError::DownloadRestricted => "Download is restricted by the file owner's IRM policy"@,
        ApiError::ManagerRequired => "Manager role required"@,
        ApiError::NotDriveMember => "Not a member of this drive"@,
        ApiError::EmptyFolderName => "Folder name cannot be empty"@,
        ApiError::EmptyFileName => "File name cannot be empty"@,
        ApiError::EmptyDriveName => "Drive name is required"@,
        ApiError::CannotGrantOwner => "Cannot grant Owner role directly. Use transfer-ownership instead."@,
        ApiError::CannotSetOwner => "Cannot set Owner role directly. Use transfer-ownership instead."@,
        ApiError::LastOwnerRoleChange => "Cannot change the role of the last owner"@,
        ApiError::LastOwnerRevoke => "Cannot revoke the last owner's access"@,
        ApiError::AlreadyOwner => "You are already the owner"@,
        ApiError::InvalidRole => "Invalid role"@,
        ApiError::LastManagerDemote => "Cannot demote the last manager"@,
        ApiError::LastManagerRemove => "Cannot remove the last manager"@,
        ApiError::InvalidDatetime => "Invalid datetime format. Use ISO 8601, e.g. 2026-12-31T23:59:59"@,
        ApiError::InvalidJobStatus => "status must be 'C' or 'E'"@,
        ApiError::NoFileIds => "No file IDs provided"@,
        ApiError::FolderNotFound => "Folder not found"@,
        ApiError::FileNotFound => "File not found"@,
        ApiError::ShortcutNotFound => "Shortcut not found"@,
        ApiError::PermissionNotFound => "Permission not found"@,
        ApiError::ShareLinkNotFound => "Share link not found"@,
        ApiError::ShareLinkDisabled => "Share link is disabled"@,
        ApiError::MemberNotFound => "Member not found"@,
        ApiError::DriveNotFound => "Shared drive not found"@,
        ApiError::VersionNotFound => "Version not found"@,
        ApiError::NotificationNotFound => "Notification not found"@,
        ApiError::FileNotInTrash => "File not found in trash"@,
        ApiError::FolderNotInTrash => "Folder not found in trash"@,
        ApiError::AlreadyMember => "User is already a member of this drive"@,
        ApiError::LinkExpired => "Share link has expired"@,
        ApiError::QuotaExceeded => "Storage quota exceeded"@,
        ApiError::DailyLimitExceeded => "Daily upload limit exceeded"@,
        ApiError::InvalidToken => "Invalid or expired token"@,
        ApiError::InvalidWorkerSecret => "Invalid worker secret"@,
        ApiError::EncryptedTooShort => "Encrypted file is too short"@,
        ApiError::EncryptFailed => "Failed to encrypt file data"@,
        ApiError::DecryptFailed => "Failed to decrypt file data"@,
        ApiError::PolicyMissing => "Database error"@,
        ApiError::InvalidZip => "File is not a valid ZIP archive"@,
        ApiError::ZipEntryUnreadable => "Failed to read ZIP entries"@,
        ApiError::ZipWriteFailed => "Failed to create zip archive"@,
    }
}

impl ApiError {
    /// The HTTP status of this error.
    pub fn status(&self) -> (s: u16)
        ensures
            s == status_of(*self),
    {
        match self {
            ApiError::OwnersOnly(_) | ApiError::AccessDenied | ApiError::EditAccessRequired
            | ApiError::DownloadRestricted | ApiError::ManagerRequired
            | ApiError::NotDriveMember => 403,
            ApiError::EmptyFolderName | ApiError::EmptyFileName | ApiError::EmptyDriveName
            | ApiError::CannotGrantOwner | ApiError::CannotSetOwner
            | ApiError::LastOwnerRoleChange | ApiError::LastOwnerRevoke
            | ApiError::AlreadyOwner | ApiError::InvalidRole | ApiError::LastManagerDemote
            | ApiError::LastManagerRemove | ApiError::InvalidDatetime
            | ApiError::InvalidJobStatus | ApiError::NoFileIds | ApiError::InvalidZip => 400,
            ApiError::FolderNotFound | ApiError::FileNotFound | ApiError::ShortcutNotFound
            | ApiError::PermissionNotFound | ApiError::ShareLinkNotFound
            | ApiError::ShareLinkDisabled | ApiError::MemberNotFound | ApiError::DriveNotFound
            | ApiError::VersionNotFound | ApiError::NotificationNotFound
            | ApiError::FileNotInTrash | ApiError::FolderNotInTrash => 404,
            ApiError::AlreadyMember => 409,
            ApiError::LinkExpired => 410,
            ApiError::QuotaExceeded => 413,
            ApiError::DailyLimitExceeded => 429,
            ApiError::InvalidToken | ApiError::InvalidWorkerSecret => 401,
            ApiError::EncryptedTooShort | ApiError::EncryptFailed
            | ApiError::DecryptFailed | ApiError::PolicyMissing | ApiError::ZipEntryUnreadable
            | ApiError::ZipWriteFailed => 500,
        }
    }

    /// The machine-readable code of this error.
    pub fn code(&self) -> (c: &'static str)
        ensures
            c@ == code_of(*self),
    {
        match self {
            ApiError::OwnersOnly(_) => "FORBIDDEN",
            ApiError::AccessDenied => "FORBIDDEN",
            ApiError::EditAccessRequired => "FORBIDDEN",
            ApiError::DownloadRestricted => "DOWNLOAD_RESTRICTED",
            ApiError::ManagerRequired => "FORBIDDEN",
            ApiError::NotDriveMember => "FORBIDDEN",
            ApiError::EmptyFolderName => "BAD_REQUEST",
            ApiError::EmptyFileName => "BAD_REQUEST",
            ApiError::EmptyDriveName => "BAD_REQUEST",
            ApiError::CannotGrantOwner => "BAD_REQUEST",
            ApiError::CannotSetOwner => "BAD_REQUEST",
            ApiError::LastOwnerRoleChange => "BAD_REQUEST",
            ApiError::LastOwnerRevoke => "BAD_REQUEST",
            ApiError::AlreadyOwner => "BAD_REQUEST",
            ApiError::InvalidRole => "BAD_REQUEST",
            ApiError::LastManagerDemote => "BAD_REQUEST",
            ApiError::LastManagerRemove => "BAD_REQUEST",
            ApiError::InvalidDatetime => "BAD_REQUEST",
            ApiError::InvalidJobStatus => "BAD_REQUEST",
            ApiError::NoFileIds => "BAD_REQUEST",
            ApiError::FolderNotFound => "NOT_FOUND",
            ApiError::FileNotFound => "NOT_FOUND",
            ApiError::ShortcutNotFound => "NOT_FOUND",
            ApiError::PermissionNotFound => "NOT_FOUND",
            ApiError::ShareLinkNotFound => "NOT_FOUND",
            ApiError::ShareLinkDisabled => "NOT_FOUND",
            ApiError::MemberNotFound => "NOT_FOUND",
            ApiError::DriveNotFound => "NOT_FOUND",
            ApiError::VersionNotFound => "NOT_FOUND",
            ApiError::NotificationNotFound => "NOT_FOUND",
            ApiError::FileNotInTrash => "NOT_FOUND",
            ApiError::FolderNotInTrash => "NOT_FOUND",
            ApiError::AlreadyMember => "CONFLICT",
            ApiError::LinkExpired => "LINK_EXPIRED",
            ApiError::QuotaExceeded => "QUOTA_EXCEEDED",
            ApiError::DailyLimitExceeded => "DAILY_LIMIT_EXCEEDED",
            ApiError::InvalidToken => "UNAUTHORIZED",
            ApiError::InvalidWorkerSecret => "UNAUTHORIZED",
            ApiError::EncryptedTooShort => "INTERNAL_ERROR",
            ApiError::EncryptFailed => "INTERNAL_ERROR",
            ApiError::DecryptFailed => "INTERNAL_ERROR",
            ApiError::PolicyMissing => "INTERNAL_ERROR",
            ApiError::InvalidZip => "INVALID_ZIP",
            ApiError::ZipEntryUnreadable => "INTERNAL_ERROR",
            ApiError::ZipWriteFailed => "INTERNAL_ERROR",
        }
    }

    /// The message of this error.
    pub fn message(&self) -> (t: &'static str)
        ensures
            t@ == message_of(*self),
    {
        match self {
            ApiError::OwnersOnly(a) => match a {
                OwnerOnlyAction::ViewPermissions => "Only owners can view permissions",
                OwnerOnlyAction::GrantPermissions => "Only owners can grant permissions",
                OwnerOnlyAction::UpdatePermissions => "Only owners can update permissions",
                OwnerOnlyAction::RevokePermissions => "Only owners can revoke permissions",
                OwnerOnlyAction::TransferOwnership => "Only owners can transfer ownership",
                OwnerOnlyAction::ManageIrmPolicies => "Only owners can manage IRM policies",
                OwnerOnlyAction::ManageShareLinks => "Only owners can manage share links",
            },
            ApiError::AccessDenied => "Access denied",
            ApiError::EditAccessRequired => "Edit access required",
            ApiError::DownloadRestricted => "Download is restricted by the file owner's IRM policy",
            ApiError::ManagerRequired => "Manager role required",
            ApiError::NotDriveMember => "Not a member of this drive",
            ApiError::EmptyFolderName => "Folder name cannot be empty",
            ApiError::EmptyFileName => "File name cannot be empty",
            ApiError::EmptyDriveName => "Drive name is required",
            ApiError::CannotGrantOwner => "Cannot grant Owner role directly. Use transfer-ownership instead.",
            ApiError::CannotSetOwner => "Cannot set Owner role directly. Use transfer-ownership instead.",
            ApiError::LastOwnerRoleChange => "Cannot change the role of the last owner",
            ApiError::LastOwnerRevoke => "Cannot revoke the last owner's access",
            ApiError::AlreadyOwner => "You are already the owner",
            ApiError::InvalidRole => "Invalid role",
            ApiError::LastManagerDemote => "Cannot demote the last manager",
            ApiError::LastManagerRemove => "Cannot remove the last manager",
            ApiError::InvalidDatetime => "Invalid datetime format. Use ISO 8601, e.g. 2026-12-31T23:59:59",
            ApiError::InvalidJobStatus => "status must be 'C' or 'E'",
            ApiError::NoFileIds => "No file IDs provided",
            ApiError::FolderNotFound => "Folder not found",
            ApiError::FileNotFound => "File not found",
            ApiError::ShortcutNotFound => "Shortcut not found",
            ApiError::PermissionNotFound => "Permission not found",
            ApiError::ShareLinkNotFound => "Share link not found",
            ApiError::ShareLinkDisabled => "Share link is disabled",
            ApiError::MemberNotFound => "Member not found",
            ApiError::DriveNotFound => "Shared drive not found",
            ApiError::VersionNotFound => "Version not found",
            ApiError::NotificationNotFound => "Notification not found",
            ApiError::FileNotInTrash => "File not found in trash",
            ApiError::FolderNotInTrash => "Folder not found in trash",
            ApiError::AlreadyMember => "User is already a member of this drive",
            ApiError::LinkExpired => "Share link has expired",
            ApiError::QuotaExceeded => "Storage quota exceeded",
            ApiError::DailyLimitExceeded => "Daily upload limit exceeded",
            ApiError::InvalidToken => "Invalid or expired token",
            ApiError::InvalidWorkerSecret => "Invalid worker secret",
            ApiError::EncryptedTooShort => "Encrypted file is too short",
            ApiError::EncryptFailed => "Failed to encrypt file data",
            ApiError::DecryptFailed => "Failed to decrypt file data",
            ApiError::PolicyMissing => "Database error",
            ApiError::InvalidZip => "File is not a valid ZIP archive",
            ApiError::ZipEntryUnreadable => "Failed to read ZIP entries",
            ApiError::ZipWriteFailed => "Failed to create zip archive",
        }
    }
}

} // verus!
