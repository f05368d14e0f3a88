//! The per-image decisions of one Markdown export: a source already copied
//! keeps its name, a copy with the same content digest as an earlier one is
//! dropped in favour of that file, and any other copy gets a fresh
//! content-addressed name.

use sha2::Digest;
use vstd::prelude::*;

use crate::export::{
    candidate_name, export_asset_name, lookup, spec_export_asset_name, ExportNameError,
};
use crate::model::DiskFingerprint;
use crate::shell::monitor::hex_of;
use crate::text::path_key::{path_key, spec_path_key};

verus! {

/// The SHA-256 digest of `bytes`.
pub uninterp spec fn sha256(bytes: Seq<u8>) -> Seq<u8>;

/// Calls `sha2::Sha256::digest`, the SHA-256 hash of the whole input; its
/// 32 bytes are what the name stands for.
#[verifier::external_body]
fn sha256_digest(bytes: &[u8]) -> (r: [u8; 32])
    ensures
        r@ == sha256(bytes@),
{
    <sha2::Sha256 as Digest>::digest(bytes).into()
}

/// What one local image of the export becomes.
#[derive(Debug, Clone, Copy, PartialEq, Eq, Structural)]
pub enum ExportImageKind {
    /// The same resolved source was copied before: its name is reused and the
    /// file is not copied again.
    ReuseSource,
    /// Another source with the same content was copied before: this copy is
    /// dropped and that file's name is used.
    ReuseContent,
    /// The copy is kept under a fresh name.
    NewAsset,
}

/// The name an image's Markdown link points to, and how it was found.
#[derive(Debug, Clone, PartialEq, Eq)]
pub struct ExportImageStep {
    pub kind: ExportImageKind,
    pub name: String,
}

/// What an export has decided so far: the path key of each resolved source
/// with its name, each copied digest with its name, and each assigned name
/// with its digest. Sources are told apart by `path_key`, so two spellings of
/// one path (`/` or `\`, repeated separators, inner `.`) are one source.
pub struct ExportPlan {
    resolved: Vec<(String, String)>,
    copied: Vec<([u8; 32], String)>,
    occupied: Vec<(String, [u8; 32])>,
}

pub struct ExportPlanView {
    pub resolved: Seq<(Seq<char>, Seq<char>)>,
    pub copied: Seq<(Seq<u8>, Seq<char>)>,
    pub occupied: Seq<(Seq<char>, Seq<u8>)>,
}

/// The name recorded for `key` by its first entry.
pub open spec fn first_name<K>(entries: Seq<(K, Seq<char>)>, key: K) -> Option<Seq<char>>
    decreases entries.len(),
{
    if entries.len() == 0 {
        None
    } else if entries[0].0 == key {
        Some(entries[0].1)
    } else {
        first_name(entries.drop_first(), key)
    }
}

impl ExportPlanView {
    /// The decision for the next local image, `source` resolved, with the
    /// digest and extension of its copy, and the plan it leaves.
    pub open spec fn stepped(self, source: Seq<char>, digest: [u8; 32], extension: Seq<char>) -> (
        ExportPlanView,
        Result<(ExportImageKind, Seq<char>), ExportNameError>,
    ) {
        match first_name(self.resolved, spec_path_key(source)) {
            Some(name) => (self, Ok((ExportImageKind::ReuseSource, name))),
            None => match first_name(self.copied, digest@) {
                Some(name) => (
                    ExportPlanView {
                        resolved: self.resolved.push((spec_path_key(source), name)),
                        ..self
                    },
                    Ok((ExportImageKind::ReuseContent, name)),
                ),
                None => match export_name_in(digest, extension, self.occupied) {
                    Some(name) => (
                        ExportPlanView {
                            resolved: self.resolved.push((spec_path_key(source), name)),
                            copied: self.copied.push((digest@, name)),
                            occupied: self.occupied.push((name, digest@)),
                        },
                        Ok((ExportImageKind::NewAsset, name)),
                    ),
                    None => (self, Err(ExportNameError::AssetNameCollision)),
                },
            },
        }
    }
}

impl View for ExportPlan {
    type V = ExportPlanView;

    closed spec fn view(&self) -> ExportPlanView {
        ExportPlanView {
            resolved: self.resolved@.map_values(|p: (String, String)| (p.0@, p.1@)),
            copied: self.copied@.map_values(|p: ([u8; 32], String)| (p.0@, p.1@)),
            occupied: self.occupied@.map_values(|p: (String, [u8; 32])| (p.0@, p.1@)),
        }
    }
}

/// The view of a step's outcome.
pub open spec fn step_view(r: Result<ExportImageStep, ExportNameError>) -> Result<
    (ExportImageKind, Seq<char>),
    ExportNameError,
> {
    match r {
        Ok(step) => Ok((step.kind, step.name@)),
        Err(e) => Err(e),
    }
}

fn find_source(resolved: &Vec<(String, String)>, source: &String) -> (r: Option<String>)
    ensures
        match first_name(resolved@.map_values(|p: (String, String)| (p.0@, p.1@)), source@) {
            Some(name) => r matches Some(s) && s@ == name,
            None => r is None,
        },
{
    let ghost all = resolved@.map_values(|p: (String, String)| (p.0@, p.1@));
    let mut i: usize = 0;
    assert(all.subrange(0, all.len() as int) =~= all);
    while i < resolved.len()
        invariant
            i <= resolved@.len(),
            all == resolved@.map_values(|p: (String, String)| (p.0@, p.1@)),
            first_name(all, source@) == first_name(all.subrange(i as int, all.len() as int), source@),
        decreases resolved@.len() - i,
    {
        proof {
            let rest = all.subrange(i as int, all.len() as int);
            assert(rest.drop_first() =~= all.subrange(i + 1, all.len() as int));
            assert(rest[0] == all[i as int]);
        }
        if resolved[i].0 == *source {
            return Some(resolved[i].1.clone());
        }
        i += 1;
    }
    assert(all.subrange(i as int, all.len() as int) =~= Seq::<(Seq<char>, Seq<char>)>::empty());
    None
}

fn find_digest(copied: &Vec<([u8; 32], String)>, digest: &[u8; 32]) -> (r: Option<String>)
    ensures
        match first_name(copied@.map_values(|p: ([u8; 32], String)| (p.0@, p.1@)), digest@) {
            Some(name) => r matches Some(s) && s@ == name,
            None => r is None,
        },
{
    let ghost all = copied@.map_values(|p: ([u8; 32], String)| (p.0@, p.1@));
    let mut i: usize = 0;
    assert(all.subrange(0, all.len() as int) =~= all);
    while i < copied.len()
        invariant
            i <= copied@.len(),
            all == copied@.map_values(|p: ([u8; 32], String)| (p.0@, p.1@)),
            first_name(all, digest@) == first_name(all.subrange(i as int, all.len() as int), digest@),
        decreases copied@.len() - i,
    {
        proof {
            let rest = all.subrange(i as int, all.len() as int);
            assert(rest.drop_first() =~= all.subrange(i + 1, all.len() as int));
            assert(rest[0] == all[i as int]);
        }
        if DiskFingerprint(copied[i].0).same_as(&DiskFingerprint(*digest)) {
            proof {
                assert(copied@[i as int].0@ =~= digest@);
            }
            return Some(copied[i].1.clone());
        }
        proof {
            assert(copied@[i as int].0@ != digest@);
        }
        i += 1;
    }
    assert(all.subrange(i as int, all.len() as int) =~= Seq::<(Seq<u8>, Seq<char>)>::empty());
    None
}

/// The digest recorded for `name` by its first entry.
pub open spec fn named_digest(entries: Seq<(Seq<char>, Seq<u8>)>, name: Seq<char>) -> Option<Seq<u8>>
    decreases entries.len(),
{
    if entries.len() == 0 {
        None
    } else if entries[0].0 == name {
        Some(entries[0].1)
    } else {
        named_digest(entries.drop_first(), name)
    }
}

/// `name` is free for `digest` among `entries`: unused, or already its own.
pub open spec fn free_for(entries: Seq<(Seq<char>, Seq<u8>)>, name: Seq<char>, digest: [u8; 32]) -> bool {
    match named_digest(entries, name) {
        None => true,
        Some(h) => h == digest@,
    }
}

/// The shortest of the 20-, 32- and 64-digit names of `digest` that is free
/// among `entries`.
pub open spec fn export_name_in(
    digest: [u8; 32],
    extension: Seq<char>,
    entries: Seq<(Seq<char>, Seq<u8>)>,
) -> Option<Seq<char>> {
    let hex = hex_of(digest@);
    if free_for(entries, candidate_name(hex, 20, extension), digest) {
        Some(candidate_name(hex, 20, extension))
    } else if free_for(entries, candidate_name(hex, 32, extension), digest) {
        Some(candidate_name(hex, 32, extension))
    } else if free_for(entries, candidate_name(hex, 64, extension), digest) {
        Some(candidate_name(hex, 64, extension))
    } else {
        None
    }
}

proof fn lemma_lookup_view(occupied: Seq<(String, [u8; 32])>, name: Seq<char>)
    ensures
        lookup(occupied, name) == named_digest(
            occupied.map_values(|p: (String, [u8; 32])| (p.0@, p.1@)),
            name,
        ),
    decreases occupied.len(),
{
    if occupied.len() > 0 {
        assert(occupied.map_values(|p: (String, [u8; 32])| (p.0@, p.1@)).drop_first()
            =~= occupied.drop_first().map_values(|p: (String, [u8; 32])| (p.0@, p.1@)));
        lemma_lookup_view(occupied.drop_first(), name);
    }
}

proof fn lemma_export_name_view(digest: [u8; 32], extension: Seq<char>, occupied: Seq<(String, [u8; 32])>)
    ensures
        spec_export_asset_name(digest, extension, occupied) == export_name_in(
            digest,
            extension,
            occupied.map_values(|p: (String, [u8; 32])| (p.0@, p.1@)),
        ),
{
    let hex = hex_of(digest@);
    lemma_lookup_view(occupied, candidate_name(hex, 20, extension));
    lemma_lookup_view(occupied, candidate_name(hex, 32, extension));
    lemma_lookup_view(occupied, candidate_name(hex, 64, extension));
}

impl ExportPlan {
    /// A plan with nothing decided.
    pub fn new() -> (r: ExportPlan)
        ensures
            r@.resolved.len() == 0,
            r@.copied.len() == 0,
            r@.occupied.len() == 0,
    {
        let r = ExportPlan { resolved: Vec::new(), copied: Vec::new(), occupied: Vec::new() };
        assert(r@.resolved =~= Seq::<(Seq<char>, Seq<char>)>::empty());
        assert(r@.copied =~= Seq::<(Seq<u8>, Seq<char>)>::empty());
        r
    }

    /// How many image files the export keeps: one per distinct content.
    pub fn copied_assets(&self) -> (r: usize)
        ensures
            r == self@.copied.len(),
    {
        self.copied.len()
    }

    /// The name an already resolved source was given; an export copies a
    /// source only when this is `None`.
    pub fn known_source(&self, source: &String) -> (r: Option<String>)
        ensures
            match first_name(self@.resolved, spec_path_key(source@)) {
                Some(name) => r matches Some(s) && s@ == name,
                None => r is None,
            },
    {
        let key = path_key(source.as_str());
        find_source(&self.resolved, &key)
    }

    /// Decides the next local image from its resolved source and the digest
    /// and extension of its copy, and records the decision.
    pub fn plan_export_image(&mut self, source: &String, digest: [u8; 32], extension: &str) -> (r:
        Result<ExportImageStep, ExportNameError>)
        ensures
            (final(self)@, step_view(r)) == old(self)@.stepped(source@, digest, extension@),
    {
        let key = path_key(source.as_str());
        if let Some(name) = find_source(&self.resolved, &key) {
            return Ok(ExportImageStep { kind: ExportImageKind::ReuseSource, name });
        }
        if let Some(name) = find_digest(&self.copied, &digest) {
            let ghost before = self.resolved@;
            self.resolved.push((key, name.clone()));
            proof {
                assert(self.resolved@.map_values(|p: (String, String)| (p.0@, p.1@)) =~= before.map_values(
                    |p: (String, String)| (p.0@, p.1@),
                ).push((spec_path_key(source@), name@)));
            }
            return Ok(ExportImageStep { kind: ExportImageKind::ReuseContent, name });
        }
        proof {
            lemma_export_name_view(digest, extension@, self.occupied@);
        }
        match export_asset_name(digest, extension, &self.occupied) {
            Ok(name) => {
                let ghost resolved_before = self.resolved@;
                let ghost copied_before = self.copied@;
                let ghost occupied_before = self.occupied@;
                self.resolved.push((key, name.clone()));
                self.copied.push((digest, name.clone()));
                self.occupied.push((name.clone(), digest));
                proof {
                    assert(self.resolved@.map_values(|p: (String, String)| (p.0@, p.1@))
                        =~= resolved_before.map_values(|p: (String, String)| (p.0@, p.1@)).push(
                        (spec_path_key(source@), name@),
                    ));
                    assert(self.copied@.map_values(|p: ([u8; 32], String)| (p.0@, p.1@))
                        =~= copied_before.map_values(|p: ([u8; 32], String)| (p.0@, p.1@)).push(
                        (digest@, name@),
                    ));
                    assert(self.occupied@.map_values(|p: (String, [u8; 32])| (p.0@, p.1@))
                        =~= occupied_before.map_values(|p: (String, [u8; 32])| (p.0@, p.1@)).push(
                        (name@, digest@),
                    ));
                    lemma_export_name_view(digest, extension@, occupied_before);
                }
                Ok(ExportImageStep { kind: ExportImageKind::NewAsset, name })
            },
            Err(e) => Err(e),
        }
    }

    /// Hashes the copied bytes of the next local image and decides it as
    /// `plan_export_image` does with their SHA-256 digest.
    pub fn plan_copied_image(&mut self, source: &String, bytes: &[u8], extension: &str) -> (r:
        Result<ExportImageStep, ExportNameError>)
        ensures
            exists|digest: [u8; 32]|
                digest@ == sha256(bytes@) && (final(self)@, step_view(r)) == old(self)@.stepped(
                    source@,
                    digest,
                    extension@,
                ),
    {
        let digest = sha256_digest(bytes);
        self.plan_export_image(source, digest, extension)
    }
}

} // verus!
