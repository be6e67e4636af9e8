//! The package-manager core: manifest model, archive planning, registry wire
//! contract, credentials and the dependency-resolution decisions.

pub mod api;
pub mod auth;
pub mod config;
pub mod download;
pub mod manifest;
pub mod package;
pub mod publish;

use vstd::prelude::*;

use crate::common::path_forbidden;
use crate::common::MoxenError;
use crate::moxen::config::MoxenConfig;
use crate::moxen::manifest::PackageManifest;
use crate::moxen::package::all_patterns_ok;
use crate::moxen::package::collection_ok;
use crate::moxen::package::has_root_toc;
use crate::moxen::package::ignore_seq;
use crate::moxen::package::kept_spec;
use crate::moxen::package::package_content;
use crate::moxen::package::ArchivePlan;

verus! {

/// The context of one invocation: the toolkit's own directory, the bundle's
/// source directory, the loaded manifest and the loaded configuration.
/// It is built once, from values read outside the library, and passed by
/// reference: no operation works on ambient process state.
#[derive(Debug, Clone)]
pub struct Manager {
    pub mox_dir: String,
    pub src_dir: String,
    pub manifest: PackageManifest,
    pub config: MoxenConfig,
}

impl Manager {
    /// Assembles the invocation context from its already-loaded parts.
    pub fn new(mox_dir: String, src_dir: String, manifest: PackageManifest, config: MoxenConfig)
        -> (r: Self)
        ensures
            r.mox_dir == mox_dir,
            r.src_dir == src_dir,
            r.manifest == manifest,
            r.config == config,
    {
        Manager { mox_dir, src_dir, manifest, config }
    }

    /// Plans the bundle's archive build over its enumerated files, applying
    /// the manifest's ignore patterns.
    pub fn package(&self, files: Vec<String>) -> (r: Result<ArchivePlan, MoxenError>)
        ensures
            r is Ok <==> (has_root_toc(files.deep_view()) || collection_ok(files.deep_view()))
                && all_patterns_ok(ignore_seq(&self.manifest)) && (forall|i: int|
                0 <= i < kept_spec(files.deep_view(), ignore_seq(&self.manifest)).len()
                    ==> !path_forbidden(
                    kept_spec(files.deep_view(), ignore_seq(&self.manifest))[i],
                )),
            !(has_root_toc(files.deep_view()) || collection_ok(files.deep_view())) ==> (
            r matches Err(e) && e is MissingTocFile),
            r matches Ok(plan) ==> plan.files.deep_view() == kept_spec(
                files.deep_view(),
                ignore_seq(&self.manifest),
            ) && plan.source_dir@ == self.src_dir@ && plan.staging_dir@ == self.mox_dir@
                + "/package/"@ + self.manifest.normal_name_spec(true) && plan.archive_path@
                == self.mox_dir@ + "/package/"@ + self.manifest.normal_name_spec(true) + ".mox"@,
            (has_root_toc(files.deep_view()) || collection_ok(files.deep_view()))
                && !all_patterns_ok(ignore_seq(&self.manifest)) ==> (r matches Err(e)
                && e is GeneralError),
            (has_root_toc(files.deep_view()) || collection_ok(files.deep_view()))
                && all_patterns_ok(ignore_seq(&self.manifest)) && (exists|i: int|
                0 <= i < kept_spec(files.deep_view(), ignore_seq(&self.manifest)).len()
                    && path_forbidden(
                    kept_spec(files.deep_view(), ignore_seq(&self.manifest))[i],
                )) ==> (r matches Err(e) && e is InvalidFileExtension),
    {
        package_content(&self.manifest, &self.src_dir, &self.mox_dir, files)
    }

    /// What publishing needs from the stored credentials: the API key and
    /// the username.  Missing credentials or a missing key are state errors.
    pub fn publish_preflight(&self) -> (r: Result<(String, String), MoxenError>)
        ensures
            r is Ok <==> (self.config.credentials matches Some(c) && c.api_key is Some),
            r matches Ok(p) ==> (self.config.credentials matches Some(c)
                && c.api_key matches Some(k) && p.0@ == k@ && p.1@ == c.username@),
            self.config.credentials is None ==> (r matches Err(e)
                && e matches MoxenError::GeneralError(m) && m@ == "missing credentials"@),
            (self.config.credentials matches Some(c) && c.api_key is None) ==> (r matches Err(e)
                && e matches MoxenError::GeneralError(m) && m@ == "missing api key"@),
    {
        match &self.config.credentials {
            Some(c) => match &c.api_key {
                Some(k) => Ok((k.clone(), c.username.clone())),
                None => Err(MoxenError::GeneralError(String::from_str("missing api key"))),
            },
            None => Err(MoxenError::GeneralError(String::from_str("missing credentials"))),
        }
    }

    /// Records a successful registration or recovery: the chosen username
    /// and the issued API key land in the stored credentials.  Without
    /// stored credentials there is nothing to update and the context is
    /// left untouched.
    pub fn apply_registration(&mut self, name: String, api_key: String)
        ensures
            old(self).config.credentials matches Some(c0) ==> (
            final(self).config.credentials matches Some(c) && c.username@ == name@ && (
            c.api_key matches Some(k) && k@ == api_key@) && c.private_key == c0.private_key),
            old(self).config.credentials is None ==> *final(self) == *old(self),
            final(self).mox_dir == old(self).mox_dir,
            final(self).src_dir == old(self).src_dir,
            final(self).manifest == old(self).manifest,
            final(self).config.file_path == old(self).config.file_path,
    {
        let creds = self.config.credentials.take();
        match creds {
            Some(mut c) => {
                c.username = name;
                c.api_key = Some(api_key);
                self.config.credentials = Some(c);
            },
            None => {
                self.config.credentials = None;
            },
        }
    }
}

} // verus!
