//! A project blueprint: the service to create, the folders to make and the
//! files to render.

use vstd::prelude::*;

verus! {

/// A project blueprint, as written in `blueprint.yaml`.
#[derive(Debug)]
pub struct Blueprint {
    pub service: Service,
    pub structure: Structure,
}

/// The service a blueprint creates; its name is also the project directory.
#[derive(Debug)]
pub struct Service {
    pub name: String,
}

/// The folders a blueprint creates and the files it renders (each file is
/// a template of `templates/base` with the same relative path).
#[derive(Debug)]
pub struct Structure {
    pub folders: Vec<String>,
    pub files: Vec<String>,
}

} // verus!
