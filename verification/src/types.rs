//! The entities of the annotation application and the requests that create
//! and change them.

use vstd::prelude::*;

verus! {

/// A user of the application.
#[derive(Debug, Clone, PartialEq, Eq)]
pub struct User {
    pub user_id: String,
    pub name: String,
    pub email: String,
    pub company: Option<String>,
    /// `admin`, `annotator` or `builder`.
    pub role: String,
    pub created_at: String,
    pub last_login: Option<String>,
}

/// A request to create a user.
#[derive(Debug, Clone, PartialEq, Eq)]
pub struct CreateUserRequest {
    pub name: String,
    pub email: String,
    pub company: Option<String>,
    pub role: String,
}

/// A request to change a user; what is `None` stays.
#[derive(Debug, Clone, PartialEq, Eq)]
pub struct UpdateUserRequest {
    pub name: Option<String>,
    pub company: Option<String>,
    pub role: Option<String>,
}

/// A project: blocks of images and the classes to annotate them with.
#[derive(Debug, Clone, PartialEq, Eq)]
pub struct Project {
    pub project_id: String,
    pub name: String,
    /// `building` or `annotation`.
    pub project_type: String,
    pub locked: bool,
    pub created_at: String,
}

/// A request to create a project.
#[derive(Debug, Clone, PartialEq, Eq)]
pub struct CreateProjectRequest {
    pub name: String,
    pub project_type: String,
}

/// A request to change a project; what is `None` stays.
#[derive(Debug, Clone, PartialEq, Eq)]
pub struct UpdateProjectRequest {
    pub name: Option<String>,
    pub locked: Option<bool>,
}

/// A block of images within a project.
#[derive(Debug, Clone, PartialEq, Eq)]
pub struct Block {
    pub block_id: String,
    pub project_id: String,
    pub name: String,
    /// `draft`, `current`, `review`, `complete` or `paid`.
    pub state: String,
    pub locked: bool,
    /// The key of the user it is assigned to.
    pub assigned_to: Option<String>,
    pub created_at: String,
}

/// A request to create a block.
#[derive(Debug, Clone, PartialEq, Eq)]
pub struct CreateBlockRequest {
    pub name: String,
}

/// A request to change a block; what is `None` stays.
#[derive(Debug, Clone, PartialEq, Eq)]
pub struct UpdateBlockRequest {
    pub name: Option<String>,
    pub state: Option<String>,
    pub locked: Option<bool>,
    pub assigned_to: Option<String>,
}

/// An image within a block.
#[derive(Debug, Clone, PartialEq, Eq)]
pub struct Image {
    pub image_id: String,
    pub block_id: String,
    pub url: String,
    pub locked: bool,
    pub order: Option<i32>,
    pub uploaded_at: String,
}

/// A request to create an image.
#[derive(Debug, Clone, PartialEq, Eq)]
pub struct CreateImageRequest {
    pub url: String,
    pub order: Option<i32>,
}

/// A request to change an image; what is `None` stays.
#[derive(Debug, Clone, PartialEq, Eq)]
pub struct UpdateImageRequest {
    pub locked: Option<bool>,
    pub order: Option<i32>,
}

/// A comment on an image.
#[derive(Debug, Clone, PartialEq, Eq)]
pub struct Comment {
    pub comment_id: String,
    pub image_id: String,
    pub user_id: String,
    pub text: String,
    pub resolved: bool,
    pub created_at: String,
}

} // verus!
