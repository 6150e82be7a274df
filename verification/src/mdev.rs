//! The in-memory representation of one mediated device and its lifecycle
//! operations.
//!
//! All reads and writes against the kernel control tree and the definition
//! store are performed by the surrounding program; it asks this module for
//! the exact path of each probe or write, and hands the observed outcome
//! back as a plain value. Every decision — validation order, conflict
//! detection, capacity checking, rollback — is made here, under contract.

use vstd::prelude::*;

use crate::config::ConfigDoc;
use crate::config::DocView;
use crate::config::device_json;
use crate::config::device_json_full;
use crate::config::device_json_pretty;
use crate::config::parse_config;
use crate::config::parsed_config;
use crate::config::render_device_json;
use crate::config::render_device_json_full;
use crate::config::render_device_json_pretty;
use crate::config::render_type_json;
use crate::config::type_json;
use crate::environment::EnvPaths;
use crate::errors::MdevError;
use crate::strutil::attrs_view;
use crate::strutil::dec_seq;
use crate::strutil::dec_i32;
use crate::strutil::join2;
use crate::strutil::lemma_attrs_view_push;
use crate::strutil::opt_view;
use crate::strutil::parse_i32;
use crate::strutil::str_eq;
use crate::strutil::trim;
use crate::strutil::trim_spec;
use crate::strutil::u64_to_dec;
use crate::uuidstr::uuid_hyphenated;
use crate::uuidstr::uuid_to_string;

verus! {

/// Which listing format `to_text` produces, and which precondition it
/// checks first.
#[derive(Clone, Copy)]
pub enum FormatType {
    Active,
    Defined,
}

/// What the live kernel tree shows for an identity: the real parent
/// directory name and the resolved type name.
pub struct LiveInfo {
    pub parent: String,
    pub mdev_type: String,
}

/// The `start` field value a device's definition carries.
pub open spec fn start_label(autostart: bool) -> Seq<char> {
    if autostart {
        "auto"@
    } else {
        "manual"@
    }
}

/// The definition document a device serializes to: its type, its start
/// mode, and its attributes in order.
pub open spec fn saved_doc(dev: MDev) -> DocView {
    (opt_view(dev.mdev_type), Some(start_label(dev.autostart)), attrs_view(dev.attrs@))
}

/// Whether a loaded definition document is acceptable: both `mdev_type`
/// and `start` must be present.
pub open spec fn load_ok(doc: DocView) -> bool {
    doc.0 is Some && doc.1 is Some
}

/// The type an accepted document gives the device.
pub open spec fn loaded_type(doc: DocView) -> Option<Seq<char>> {
    doc.0
}

/// The autostart flag an accepted document gives the device.
pub open spec fn loaded_autostart(doc: DocView) -> bool {
    doc.1 == Some("auto"@)
}

/// The attribute views of a device after loading a document on top of the
/// attributes it already had.
pub open spec fn loaded_attrs(
    old_attrs: Seq<(Seq<char>, Seq<char>)>,
    doc: DocView,
) -> Seq<(Seq<char>, Seq<char>)> {
    old_attrs + doc.2
}

/// The explicit warning-level signals of a successful definition load:
/// whether a populated parent or type was overwritten by a differing value
/// (the newer value wins; the caller surfaces each signal at warning
/// level).
#[derive(Clone, Copy, Debug, PartialEq, Eq, Structural)]
pub struct LoadWarnings {
    pub parent_overwritten: bool,
    pub type_overwritten: bool,
}

/// Representation of a mediated device.
pub struct MDev {
    pub uuid: u128,
    pub active: bool,
    pub autostart: bool,
    pub parent: Option<String>,
    pub mdev_type: Option<String>,
    pub attrs: Vec<(String, String)>,
    pub env: EnvPaths,
}

impl MDev {
    /// Whether an entity matches what the live tree shows for its
    /// identity: a populated parent or type that differs means a distinct
    /// logical device.
    pub open spec fn sysfs_mismatch(self, live: LiveInfo) -> bool {
        (self.parent matches Some(p) && p@ != live.parent@) || (self.mdev_type matches Some(t)
            && t@ != live.mdev_type@)
    }

    /// The kernel-tree path of this identity.
    pub open spec fn path_spec(&self) -> Seq<char> {
        self.env.mdev_base@ + seq!['/'] + uuid_hyphenated(self.uuid)
    }

    /// The persisted-definition path, when a parent is known.
    pub open spec fn persist_path_spec(&self) -> Option<Seq<char>> {
        match self.parent {
            Some(p) => Some(
                self.env.persist_base@ + seq!['/'] + p@ + seq!['/'] + uuid_hyphenated(self.uuid),
            ),
            None => None,
        }
    }

    /// The parent's supported-types directory, when a parent is known.
    pub open spec fn types_path_spec(&self) -> Seq<char> {
        self.env.parent_base@ + seq!['/'] + self.parent->Some_0@ + seq!['/']
            + "mdev_supported_types"@
    }

    /// The directory of the requested type under the parent.
    pub open spec fn type_path_spec(&self) -> Seq<char> {
        self.types_path_spec() + seq!['/'] + self.mdev_type->Some_0@
    }

    pub fn new(env: &EnvPaths, uuid: u128) -> (r: MDev)
        ensures
            r.uuid == uuid,
            r.active == false,
            r.autostart == false,
            r.parent is None,
            r.mdev_type is None,
            r.attrs@ == Seq::<(String, String)>::empty(),
            r.env == *env,
    {
        let r = MDev {
            uuid,
            active: false,
            autostart: false,
            parent: None,
            mdev_type: None,
            attrs: Vec::new(),
            env: env.duplicate(),
        };
        proof {
            assert(r.attrs@ =~= Seq::<(String, String)>::empty());
        }
        r
    }

    /// The hyphenated text of this device's identity.
    pub fn uuid_str(&self) -> (r: String)
        ensures
            r@ == uuid_hyphenated(self.uuid),
    {
        uuid_to_string(self.uuid)
    }

    /// The kernel-tree path of this identity.
    pub fn path(&self) -> (r: String)
        ensures
            r@ == self.path_spec(),
    {
        let u = self.uuid_str();
        join2(self.env.mdev_base.as_str(), u.as_str())
    }

    /// The parent, or the consistent missing-parent error.
    pub fn parent(&self) -> (r: Result<&String, MdevError>)
        ensures
            self.parent matches Some(p) ==> (r matches Ok(q) && q@ == p@),
            self.parent is None ==> (r matches Err(e) && e matches MdevError::MissingParent { uuid }
                && uuid@ == uuid_hyphenated(self.uuid)),
    {
        match &self.parent {
            Some(p) => Ok(p),
            None => Err(MdevError::MissingParent { uuid: self.uuid_str() }),
        }
    }

    /// The type, or the consistent missing-type error.
    pub fn mdev_type(&self) -> (r: Result<&String, MdevError>)
        ensures
            self.mdev_type matches Some(t) ==> (r matches Ok(q) && q@ == t@),
            self.mdev_type is None ==> (r matches Err(e) && e matches MdevError::MissingType {
                uuid,
            } && uuid@ == uuid_hyphenated(self.uuid)),
    {
        match &self.mdev_type {
            Some(t) => Ok(t),
            None => Err(MdevError::MissingType { uuid: self.uuid_str() }),
        }
    }

    /// The persisted-definition path, when a parent is known.
    pub fn persist_path(&self) -> (r: Option<String>)
        ensures
            opt_view(r) == self.persist_path_spec(),
    {
        match &self.parent {
            Some(p) => {
                let base = join2(self.env.persist_base.as_str(), p.as_str());
                let u = self.uuid_str();
                let full = join2(base.as_str(), u.as_str());
                proof {
                    assert(full@ =~= self.persist_path_spec()->Some_0);
                }
                Some(full)
            },
            None => None,
        }
    }

    /// Whether the device is defined, given whether its definition file
    /// exists; without a resolvable parent it is never defined.
    pub fn is_defined(&self, persist_file_exists: bool) -> (r: bool)
        ensures
            r == (self.parent is Some && persist_file_exists),
    {
        self.parent.is_some() && persist_file_exists
    }

    /// Whether the populated parent differs from a live parent name; the
    /// caller uses this to skip resolving the live type when the parent
    /// already rules a match out.
    pub fn parent_mismatch(&self, parentname: &str) -> (r: bool)
        ensures
            r == (self.parent matches Some(p) && p@ != parentname@),
    {
        match &self.parent {
            Some(p) => !str_eq(p.as_str(), parentname),
            None => false,
        }
    }

    /// Reconciles the entity with what the live kernel tree shows.
    /// `live` is `None` where the tree has no entry for this identity;
    /// then, or when a populated parent or type conflicts with the live
    /// values (a different logical device), the entity is left untouched.
    /// On a match the live values are taken and the device is active.
    pub fn load_from_sysfs(&mut self, live: Option<&LiveInfo>)
        ensures
            final(self).uuid == old(self).uuid,
            final(self).env == old(self).env,
            final(self).autostart == old(self).autostart,
            final(self).attrs == old(self).attrs,
            match live {
                None => *final(self) == *old(self),
                Some(l) => {
                    if old(self).sysfs_mismatch(*l) {
                        *final(self) == *old(self)
                    } else {
                        &&& final(self).parent matches Some(p) && p@ == l.parent@
                        &&& final(self).mdev_type matches Some(t) && t@ == l.mdev_type@
                        &&& final(self).active == true
                    }
                },
            },
    {
        match live {
            None => {},
            Some(l) => {
                match &self.parent {
                    Some(p) => {
                        if !str_eq(p.as_str(), l.parent.as_str()) {
                            return ;
                        }
                    },
                    None => {},
                }
                match &self.mdev_type {
                    Some(t) => {
                        if !str_eq(t.as_str(), l.mdev_type.as_str()) {
                            return ;
                        }
                    },
                    None => {},
                }
                self.mdev_type = Some(l.mdev_type.clone());
                self.parent = Some(l.parent.clone());
                self.active = true;
            },
        }
    }

    /// Takes over a parsed definition document. A document without
    /// `mdev_type` or `start` is rejected and the entity is left entirely
    /// unchanged. Otherwise the parent and type are adopted — the newer
    /// value wins, and the returned warnings say exactly when a differing
    /// populated value was overwritten, so the caller can surface them —
    /// autostart follows `start == "auto"`, and the document's attributes
    /// are appended in order.
    pub fn load_from_json(&mut self, parent: String, doc: &ConfigDoc) -> (r: Result<
        LoadWarnings,
        MdevError,
    >)
        ensures
            !load_ok(doc@) ==> {
                &&& r == Err::<LoadWarnings, MdevError>(MdevError::InvalidJson)
                &&& *final(self) == *old(self)
            },
            load_ok(doc@) ==> {
                &&& final(self).uuid == old(self).uuid
                &&& final(self).env == old(self).env
                &&& final(self).active == old(self).active
                &&& final(self).parent == Some(parent)
                &&& opt_view(final(self).mdev_type) == loaded_type(doc@)
                &&& final(self).autostart == loaded_autostart(doc@)
                &&& attrs_view(final(self).attrs@) == loaded_attrs(
                    attrs_view(old(self).attrs@),
                    doc@,
                )
                &&& r matches Ok(w) && w.parent_overwritten == (old(self).parent matches Some(p)
                    && p@ != parent@) && w.type_overwritten == (old(
                    self,
                ).mdev_type matches Some(t) && Some(t@) != loaded_type(doc@))
            },
    {
        let mdev_type = match &doc.mdev_type {
            Some(t) => t.clone(),
            None => {
                return Err(MdevError::InvalidJson);
            },
        };
        let start = match &doc.start {
            Some(s) => s.clone(),
            None => {
                return Err(MdevError::InvalidJson);
            },
        };
        let parent_overwritten = match &self.parent {
            Some(p) => !str_eq(p.as_str(), parent.as_str()),
            None => false,
        };
        let type_overwritten = match &self.mdev_type {
            Some(t) => !str_eq(t.as_str(), mdev_type.as_str()),
            None => false,
        };
        self.parent = Some(parent);
        self.mdev_type = Some(mdev_type);
        self.autostart = str_eq(start.as_str(), "auto");
        let ghost orig = self.attrs@;
        let mut i: usize = 0;
        while i < doc.attrs.len()
            invariant
                0 <= i <= doc.attrs.len(),
                orig == old(self).attrs@,
                attrs_view(self.attrs@) == attrs_view(orig) + attrs_view(
                    doc.attrs@.take(i as int),
                ),
                self.uuid == old(self).uuid,
                self.env == old(self).env,
                self.active == old(self).active,
                self.parent == Some(parent),
                opt_view(self.mdev_type) == loaded_type(doc@),
                self.autostart == loaded_autostart(doc@),
            decreases doc.attrs.len() - i,
        {
            let name = doc.attrs[i].0.clone();
            let value = doc.attrs[i].1.clone();
            let ghost pre = self.attrs@;
            self.attrs.push((name, value));
            proof {
                assert(doc.attrs@.take(i as int + 1) =~= doc.attrs@.take(i as int).push(
                    doc.attrs@[i as int],
                ));
                lemma_attrs_view_push(pre, (name, value));
                lemma_attrs_view_push(doc.attrs@.take(i as int), doc.attrs@[i as int]);
                assert(attrs_view(self.attrs@) =~= attrs_view(orig) + attrs_view(
                    doc.attrs@.take(i as int + 1),
                ));
            }
            i = i + 1;
        }
        proof {
            assert(doc.attrs@.take(doc.attrs@.len() as int) =~= doc.attrs@);
        }
        Ok(LoadWarnings { parent_overwritten, type_overwritten })
    }

    /// Takes over the stored definition text read from the definition
    /// path: decodes it and loads the document under the parent already
    /// populated on the entity.
    pub fn load_definition(&mut self, contents: &str) -> (r: Result<LoadWarnings, MdevError>)
        requires
            old(self).parent is Some,
        ensures
            match parsed_config(contents@) {
                Err(m) => r matches Err(e) && e matches MdevError::MalformedJson { msg } && msg@
                    == m && *final(self) == *old(self),
                Ok(t) => {
                    &&& !load_ok(t) ==> r == Err::<LoadWarnings, MdevError>(MdevError::InvalidJson)
                        && *final(self) == *old(self)
                    &&& load_ok(t) ==> {
                        &&& final(self).uuid == old(self).uuid
                        &&& final(self).env == old(self).env
                        &&& final(self).active == old(self).active
                        &&& final(self).parent == old(self).parent
                        &&& opt_view(final(self).mdev_type) == loaded_type(t)
                        &&& final(self).autostart == loaded_autostart(t)
                        &&& attrs_view(final(self).attrs@) == loaded_attrs(
                            attrs_view(old(self).attrs@),
                            t,
                        )
                        &&& r matches Ok(w) && w.parent_overwritten == false
                            && w.type_overwritten == (old(self).mdev_type matches Some(ty)
                            && Some(ty@) != loaded_type(t))
                    }
                },
            },
    {
        let parent = match &self.parent {
            Some(p) => p.clone(),
            None => {
                return Err(MdevError::InvalidJson);
            },
        };
        match parse_config(contents) {
            Err(e) => Err(e),
            Ok(doc) => self.load_from_json(parent, &doc),
        }
    }

    /// The definition text of this device, compact, optionally wrapped in
    /// an object keyed by the identity.
    pub fn to_json(&self, include_uuid: bool) -> (r: Result<String, MdevError>)
        ensures
            self.mdev_type is None ==> (r matches Err(e) && e matches MdevError::MissingType {
                uuid,
            } && uuid@ == uuid_hyphenated(self.uuid)),
            self.mdev_type matches Some(t) ==> (r matches Ok(s) && s@ == (if include_uuid {
                device_json_full(
                    uuid_hyphenated(self.uuid),
                    t@,
                    start_label(self.autostart),
                    attrs_view(self.attrs@),
                )
            } else {
                device_json(t@, start_label(self.autostart), attrs_view(self.attrs@))
            })),
    {
        let mdev_type = match self.mdev_type() {
            Ok(t) => t,
            Err(e) => {
                return Err(e);
            },
        };
        let start = if self.autostart {
            "auto".to_owned()
        } else {
            "manual".to_owned()
        };
        if include_uuid {
            let u = self.uuid_str();
            Ok(render_device_json_full(&u, mdev_type, &start, &self.attrs))
        } else {
            Ok(render_device_json(mdev_type, &start, &self.attrs))
        }
    }

    /// The definition document this device serializes to, structurally.
    pub fn to_config(&self) -> (r: Result<ConfigDoc, MdevError>)
        ensures
            self.mdev_type is None ==> (r matches Err(e) && e matches MdevError::MissingType {
                uuid,
            } && uuid@ == uuid_hyphenated(self.uuid)),
            self.mdev_type is Some ==> (r matches Ok(c) && c@ == saved_doc(*self)),
    {
        let mdev_type = match self.mdev_type() {
            Ok(t) => t.clone(),
            Err(e) => {
                return Err(e);
            },
        };
        let start = if self.autostart {
            "auto".to_owned()
        } else {
            "manual".to_owned()
        };
        let mut attrs: Vec<(String, String)> = Vec::new();
        let mut i: usize = 0;
        while i < self.attrs.len()
            invariant
                0 <= i <= self.attrs.len(),
                attrs_view(attrs@) == attrs_view(self.attrs@.take(i as int)),
            decreases self.attrs.len() - i,
        {
            let name = self.attrs[i].0.clone();
            let value = self.attrs[i].1.clone();
            let ghost pre = attrs@;
            attrs.push((name, value));
            proof {
                assert(self.attrs@.take(i as int + 1) =~= self.attrs@.take(i as int).push(
                    self.attrs@[i as int],
                ));
                lemma_attrs_view_push(pre, (name, value));
                lemma_attrs_view_push(self.attrs@.take(i as int), self.attrs@[i as int]);
                assert(attrs_view(attrs@) =~= attrs_view(self.attrs@.take(i as int + 1)));
            }
            i = i + 1;
        }
        proof {
            assert(self.attrs@.take(self.attrs@.len() as int) =~= self.attrs@);
        }
        Ok(ConfigDoc { mdev_type: Some(mdev_type), start: Some(start), attrs })
    }

    /// The pretty-printed definition text `define` persists.
    pub fn write_config(&self) -> (r: Result<String, MdevError>)
        requires
            self.parent is Some,
        ensures
            self.mdev_type is None ==> (r matches Err(e) && e matches MdevError::MissingType {
                uuid,
            } && uuid@ == uuid_hyphenated(self.uuid)),
            self.mdev_type matches Some(t) ==> (r matches Ok(s) && s@ == device_json_pretty(
                t@,
                start_label(self.autostart),
                attrs_view(self.attrs@),
            )),
    {
        let mdev_type = match self.mdev_type() {
            Ok(t) => t,
            Err(e) => {
                return Err(e);
            },
        };
        let start = if self.autostart {
            "auto".to_owned()
        } else {
            "manual".to_owned()
        };
        Ok(render_device_json_pretty(mdev_type, &start, &self.attrs))
    }

    /// Defines the device: yields the text to persist at the definition
    /// path (the caller writes it, creating directories as needed).
    pub fn define(&self) -> (r: Result<String, MdevError>)
        requires
            self.parent is Some,
        ensures
            self.mdev_type is None ==> (r matches Err(e) && e matches MdevError::MissingType {
                uuid,
            } && uuid@ == uuid_hyphenated(self.uuid)),
            self.mdev_type matches Some(t) ==> (r matches Ok(s) && s@ == device_json_pretty(
                t@,
                start_label(self.autostart),
                attrs_view(self.attrs@),
            )),
    {
        self.write_config()
    }

    /// Undefines the device: yields the definition path the caller must
    /// remove, or the error when no parent can resolve one.
    pub fn undefine(&self) -> (r: Result<String, MdevError>)
        ensures
            self.parent is Some ==> (r matches Ok(p) && Some(p@) == self.persist_path_spec()),
            self.parent is None ==> (r matches Err(e) && e matches MdevError::UndefineNoPath {
                uuid,
            } && uuid@ == uuid_hyphenated(self.uuid)),
    {
        match self.persist_path() {
            Some(p) => Ok(p),
            None => Err(MdevError::UndefineNoPath { uuid: self.uuid_str() }),
        }
    }

    /// The kernel-tree file a removal trigger is written to.
    pub fn remove_path(&self) -> (r: String)
        ensures
            r@ == self.path_spec() + seq!['/'] + "remove"@,
    {
        let p = self.path();
        let r = join2(p.as_str(), "remove");
        proof {
            assert(r@ =~= self.path_spec() + seq!['/'] + "remove"@);
        }
        r
    }

    /// The kernel-tree file one attribute value is written to.
    pub fn attr_path(&self, name: &str) -> (r: String)
        ensures
            r@ == self.path_spec() + seq!['/'] + name@,
    {
        let p = self.path();
        let r = join2(p.as_str(), name);
        proof {
            assert(r@ =~= self.path_spec() + seq!['/'] + name@);
        }
        r
    }

    /// Applies the outcome of the removal-trigger write: on success the
    /// device is no longer active; on failure it is unchanged and the
    /// error carries the cause.
    pub fn stop(&mut self, write_result: Result<(), String>) -> (r: Result<(), MdevError>)
        ensures
            final(self).uuid == old(self).uuid,
            final(self).env == old(self).env,
            final(self).autostart == old(self).autostart,
            final(self).parent == old(self).parent,
            final(self).mdev_type == old(self).mdev_type,
            final(self).attrs == old(self).attrs,
            write_result is Ok ==> final(self).active == false && r is Ok,
            write_result matches Err(m) ==> ({
                &&& final(self).active == old(self).active
                &&& r matches Err(e) && e matches MdevError::RemoveFailed { uuid, cause }
                    && uuid@ == uuid_hyphenated(old(self).uuid) && cause@ == m@
            }),
    {
        match write_result {
            Ok(_) => {
                self.active = false;
                Ok(())
            },
            Err(m) => Err(MdevError::RemoveFailed { uuid: self.uuid_str(), cause: m }),
        }
    }

    /// The ordered pre-create validation against the live tree: a missing
    /// parent or type is reported first; an identity already live under a
    /// different parent or type is a distinct conflict from one already
    /// live with the same parent and type; only a clear probe passes.
    pub fn create_conflicts(&self, live: Option<&LiveInfo>) -> (r: Result<(), MdevError>)
        ensures
            self.parent is None ==> (r matches Err(e) && e matches MdevError::MissingParent { uuid }
                && uuid@ == uuid_hyphenated(self.uuid)),
            self.parent is Some && self.mdev_type is None ==> (r matches Err(e)
                && e matches MdevError::MissingType { uuid } && uuid@ == uuid_hyphenated(self.uuid)),
            self.parent is Some && self.mdev_type is Some ==> match live {
                None => r is Ok,
                Some(l) => {
                    if self.parent->Some_0@ != l.parent@ {
                        r == Err::<(), MdevError>(MdevError::ExistsDifferentParent)
                    } else if self.mdev_type->Some_0@ != l.mdev_type@ {
                        r == Err::<(), MdevError>(MdevError::ExistsDifferentType)
                    } else {
                        r == Err::<(), MdevError>(MdevError::AlreadyExists)
                    }
                },
            },
    {
        let parent = match self.parent() {
            Ok(p) => p,
            Err(e) => {
                return Err(e);
            },
        };
        let mdev_type = match self.mdev_type() {
            Ok(t) => t,
            Err(e) => {
                return Err(e);
            },
        };
        match live {
            None => Ok(()),
            Some(l) => {
                if !str_eq(parent.as_str(), l.parent.as_str()) {
                    Err(MdevError::ExistsDifferentParent)
                } else if !str_eq(mdev_type.as_str(), l.mdev_type.as_str()) {
                    Err(MdevError::ExistsDifferentType)
                } else {
                    Err(MdevError::AlreadyExists)
                }
            },
        }
    }

    /// The parent's supported-types directory, whose existence the caller
    /// probes.
    pub fn types_path(&self) -> (r: String)
        requires
            self.parent is Some,
        ensures
            r@ == self.types_path_spec(),
    {
        let parent = match self.parent() {
            Ok(p) => p,
            Err(_) => {
                return String::new();
            },
        };
        let base = join2(self.env.parent_base.as_str(), parent.as_str());
        let r = join2(base.as_str(), "mdev_supported_types");
        proof {
            assert(r@ =~= self.types_path_spec());
        }
        r
    }

    /// The requested type's directory under the parent, whose existence
    /// the caller probes.
    pub fn type_path(&self) -> (r: String)
        requires
            self.parent is Some,
            self.mdev_type is Some,
        ensures
            r@ == self.type_path_spec(),
    {
        let tp = self.types_path();
        let mdev_type = match self.mdev_type() {
            Ok(t) => t,
            Err(_) => {
                return String::new();
            },
        };
        let r = join2(tp.as_str(), mdev_type.as_str());
        proof {
            assert(r@ =~= self.type_path_spec());
        }
        r
    }

    /// The capacity file of the requested type, which the caller reads.
    pub fn available_instances_path(&self) -> (r: String)
        requires
            self.parent is Some,
            self.mdev_type is Some,
        ensures
            r@ == self.type_path_spec() + seq!['/'] + "available_instances"@,
    {
        let tp = self.type_path();
        let r = join2(tp.as_str(), "available_instances");
        proof {
            assert(r@ =~= self.type_path_spec() + seq!['/'] + "available_instances"@);
        }
        r
    }

    /// The create control file of the requested type, to which the caller
    /// writes the identity text on a successful validation.
    pub fn create_path(&self) -> (r: String)
        requires
            self.parent is Some,
            self.mdev_type is Some,
        ensures
            r@ == self.type_path_spec() + seq!['/'] + "create"@,
    {
        let tp = self.type_path();
        let r = join2(tp.as_str(), "create");
        proof {
            assert(r@ =~= self.type_path_spec() + seq!['/'] + "create"@);
        }
        r
    }

    /// The support validation: the parent must be registered for mediated
    /// devices, and must offer the requested type.
    pub fn create_support_check(&self, parent_registered: bool, type_supported: bool) -> (r: Result<
        (),
        MdevError,
    >)
        requires
            self.parent is Some,
            self.mdev_type is Some,
        ensures
            !parent_registered ==> (r matches Err(e) && e matches MdevError::ParentNotRegistered {
                parent,
            } && parent@ == self.parent->Some_0@),
            parent_registered && !type_supported ==> (r matches Err(e)
                && e matches MdevError::TypeNotSupported { parent, mdev_type } && parent@
                == self.parent->Some_0@ && mdev_type@ == self.mdev_type->Some_0@),
            parent_registered && type_supported ==> r is Ok,
    {
        let parent = match self.parent() {
            Ok(p) => p.clone(),
            Err(e) => {
                return Err(e);
            },
        };
        let mdev_type = match self.mdev_type() {
            Ok(t) => t.clone(),
            Err(e) => {
                return Err(e);
            },
        };
        if !parent_registered {
            return Err(MdevError::ParentNotRegistered { parent });
        }
        if !type_supported {
            return Err(MdevError::TypeNotSupported { parent, mdev_type });
        }
        Ok(())
    }

    /// The capacity validation over the text read from the capacity file:
    /// unparsable text is rejected, and a capacity of exactly zero means
    /// no instance is left.
    pub fn create_capacity_check(&self, avail_text: &str) -> (r: Result<(), MdevError>)
        requires
            self.parent is Some,
            self.mdev_type is Some,
        ensures
            dec_i32(trim_spec(avail_text@)) is None ==> (r matches Err(e)
                && e matches MdevError::BadCapacityValue { text } && text@ == avail_text@),
            dec_i32(trim_spec(avail_text@)) == Some(0i32) ==> (r matches Err(e)
                && e matches MdevError::NoAvailableInstances { parent, mdev_type } && parent@
                == self.parent->Some_0@ && mdev_type@ == self.mdev_type->Some_0@),
            dec_i32(trim_spec(avail_text@)) matches Some(n) && n != 0 ==> r is Ok,
    {
        let t = trim(avail_text);
        match parse_i32(t.as_str()) {
            None => Err(MdevError::BadCapacityValue { text: avail_text.to_owned() }),
            Some(n) => {
                if n == 0 {
                    let parent = match self.parent() {
                        Ok(p) => p.clone(),
                        Err(e) => {
                            return Err(e);
                        },
                    };
                    let mdev_type = match self.mdev_type() {
                        Ok(t2) => t2.clone(),
                        Err(e) => {
                            return Err(e);
                        },
                    };
                    Err(MdevError::NoAvailableInstances { parent, mdev_type })
                } else {
                    Ok(())
                }
            },
        }
    }

    /// Applies the outcome of the create-control write: on success the
    /// device is active; on failure it is unchanged and the error carries
    /// the cause.
    pub fn create_commit(&mut self, write_result: Result<(), String>) -> (r: Result<
        (),
        MdevError,
    >)
        ensures
            final(self).uuid == old(self).uuid,
            final(self).env == old(self).env,
            final(self).autostart == old(self).autostart,
            final(self).parent == old(self).parent,
            final(self).mdev_type == old(self).mdev_type,
            final(self).attrs == old(self).attrs,
            write_result is Ok ==> final(self).active == true && r is Ok,
            write_result matches Err(m) ==> ({
                &&& final(self).active == old(self).active
                &&& r matches Err(e) && e matches MdevError::CreateWriteFailed { uuid, cause }
                    && uuid@ == uuid_hyphenated(old(self).uuid) && cause@ == m@
            }),
    {
        match write_result {
            Ok(_) => {
                self.active = true;
                Ok(())
            },
            Err(m) => Err(MdevError::CreateWriteFailed { uuid: self.uuid_str(), cause: m }),
        }
    }

    /// Inserts an attribute at `index`, or appends without one; an index
    /// beyond the current length is rejected and changes nothing.
    pub fn add_attribute(&mut self, name: String, value: String, index: Option<u32>) -> (r: Result<
        (),
        MdevError,
    >)
        ensures
            final(self).uuid == old(self).uuid,
            final(self).env == old(self).env,
            final(self).active == old(self).active,
            final(self).autostart == old(self).autostart,
            final(self).parent == old(self).parent,
            final(self).mdev_type == old(self).mdev_type,
            match index {
                Some(i) => {
                    if i > old(self).attrs.len() {
                        r == Err::<(), MdevError>(
                            MdevError::AttrIndexOutOfRange { index: i },
                        ) && final(self).attrs == old(self).attrs
                    } else {
                        r is Ok && final(self).attrs@ == old(self).attrs@.insert(
                            i as int,
                            (name, value),
                        )
                    }
                },
                None => r is Ok && final(self).attrs@ == old(self).attrs@.push((name, value)),
            },
    {
        match index {
            Some(i) => {
                let idx = i as usize;
                if idx > self.attrs.len() {
                    return Err(MdevError::AttrIndexOutOfRange { index: i });
                }
                self.attrs.insert(idx, (name, value));
                Ok(())
            },
            None => {
                self.attrs.push((name, value));
                Ok(())
            },
        }
    }

    /// Removes the attribute at `index`, or the last one without an
    /// index; an index at or beyond the length, or a delete from an empty
    /// list, is rejected and changes nothing.
    pub fn delete_attribute(&mut self, index: Option<u32>) -> (r: Result<(), MdevError>)
        ensures
            final(self).uuid == old(self).uuid,
            final(self).env == old(self).env,
            final(self).active == old(self).active,
            final(self).autostart == old(self).autostart,
            final(self).parent == old(self).parent,
            final(self).mdev_type == old(self).mdev_type,
            match index {
                Some(i) => {
                    if i >= old(self).attrs.len() {
                        r == Err::<(), MdevError>(
                            MdevError::AttrIndexOutOfRange { index: i },
                        ) && final(self).attrs == old(self).attrs
                    } else {
                        r is Ok && final(self).attrs@ == old(self).attrs@.remove(i as int)
                    }
                },
                None => {
                    if old(self).attrs.len() == 0 {
                        r == Err::<(), MdevError>(MdevError::NoAttrsToDelete) && final(self).attrs
                            == old(self).attrs
                    } else {
                        r is Ok && final(self).attrs@ == old(self).attrs@.drop_last()
                    }
                },
            },
    {
        match index {
            Some(i) => {
                let idx = i as usize;
                if idx >= self.attrs.len() {
                    return Err(MdevError::AttrIndexOutOfRange { index: i });
                }
                self.attrs.remove(idx);
                Ok(())
            },
            None => {
                if self.attrs.len() == 0 {
                    return Err(MdevError::NoAttrsToDelete);
                }
                let _ = self.attrs.pop();
                Ok(())
            },
        }
    }
}

/// One verbose attribute line of a text listing.
pub open spec fn attr_line(i: int, k: Seq<char>, v: Seq<char>) -> Seq<char> {
    "    @{"@ + dec_seq(i) + "}: {\""@ + k + "\":\""@ + v + "\"}\n"@
}

/// The first `n` verbose attribute lines, in order.
pub open spec fn attr_lines(attrs: Seq<(Seq<char>, Seq<char>)>, n: int) -> Seq<char>
    decreases n,
{
    if n <= 0 {
        Seq::<char>::empty()
    } else {
        attr_lines(attrs, n - 1) + attr_line(n - 1, attrs[n - 1].0, attrs[n - 1].1)
    }
}

/// Whether the format-specific precondition of a text listing holds.
pub open spec fn text_precheck_ok(dev: MDev, fmt: FormatType, defined: bool) -> bool {
    match fmt {
        FormatType::Defined => defined,
        FormatType::Active => dev.active,
    }
}

/// The text listing of a device: identity, parent, type and start mode,
/// a cross-state marker, and one line per attribute when verbose.
pub open spec fn to_text_spec(dev: MDev, fmt: FormatType, verbose: bool, defined: bool) -> Seq<
    char,
> {
    let marker = match fmt {
        FormatType::Defined => if dev.active {
            " (active)"@
        } else {
            Seq::<char>::empty()
        },
        FormatType::Active => if defined {
            " (defined)"@
        } else {
            Seq::<char>::empty()
        },
    };
    let header = uuid_hyphenated(dev.uuid) + seq![' '] + dev.parent->Some_0@ + seq![' ']
        + dev.mdev_type->Some_0@ + seq![' '] + start_label(dev.autostart) + marker + seq!['\n'];
    if verbose && dev.attrs@.len() > 0 {
        header + "  Attrs:\n"@ + attr_lines(attrs_view(dev.attrs@), dev.attrs@.len() as int)
    } else {
        header
    }
}

impl MDev {
    /// The text listing of this device. The format's own precondition is
    /// checked first, then the parent and type must be known; attribute
    /// lines appear only in verbose mode.
    pub fn to_text(&self, fmt: FormatType, verbose: bool, defined: bool) -> (r: Result<
        String,
        MdevError,
    >)
        ensures
            !text_precheck_ok(*self, fmt, defined) ==> r == Err::<String, MdevError>(
                match fmt {
                    FormatType::Defined => MdevError::NotDefined,
                    FormatType::Active => MdevError::NotActive,
                },
            ),
            text_precheck_ok(*self, fmt, defined) && self.parent is None ==> (r matches Err(e)
                && e matches MdevError::MissingParent { uuid } && uuid@ == uuid_hyphenated(
                self.uuid,
            )),
            text_precheck_ok(*self, fmt, defined) && self.parent is Some && self.mdev_type is None
                ==> (r matches Err(e) && e matches MdevError::MissingType { uuid } && uuid@
                == uuid_hyphenated(self.uuid)),
            text_precheck_ok(*self, fmt, defined) && self.parent is Some && self.mdev_type is Some
                ==> (r matches Ok(s) && s@ == to_text_spec(*self, fmt, verbose, defined)),
    {
        match fmt {
            FormatType::Defined => {
                if !defined {
                    return Err(MdevError::NotDefined);
                }
            },
            FormatType::Active => {
                if !self.active {
                    return Err(MdevError::NotActive);
                }
            },
        }
        let parent = match self.parent() {
            Ok(p) => p,
            Err(e) => {
                return Err(e);
            },
        };
        let mdev_type = match self.mdev_type() {
            Ok(t) => t,
            Err(e) => {
                return Err(e);
            },
        };
        proof {
            reveal_strlit(" ");
            assert(" "@ =~= seq![' ']);
            reveal_strlit("\n");
            assert("\n"@ =~= seq!['\n']);
        }
        let mut out = self.uuid_str();
        out.append(" ");
        out.append(parent.as_str());
        out.append(" ");
        out.append(mdev_type.as_str());
        out.append(" ");
        if self.autostart {
            out.append("auto");
        } else {
            out.append("manual");
        }
        match fmt {
            FormatType::Defined => {
                if self.active {
                    out.append(" (active)");
                }
            },
            FormatType::Active => {
                if defined {
                    out.append(" (defined)");
                }
            },
        }
        out.append("\n");
        let ghost header = uuid_hyphenated(self.uuid) + seq![' '] + self.parent->Some_0@
            + seq![' '] + self.mdev_type->Some_0@ + seq![' '] + start_label(self.autostart) + (
        match fmt {
            FormatType::Defined => if self.active {
                " (active)"@
            } else {
                Seq::<char>::empty()
            },
            FormatType::Active => if defined {
                " (defined)"@
            } else {
                Seq::<char>::empty()
            },
        }) + seq!['\n'];
        proof {
            assert(out@ =~= header);
        }
        if verbose && self.attrs.len() > 0 {
            out.append("  Attrs:\n");
            let mut i: usize = 0;
            while i < self.attrs.len()
                invariant
                    0 <= i <= self.attrs.len(),
                    out@ == header + "  Attrs:\n"@ + attr_lines(
                        attrs_view(self.attrs@),
                        i as int,
                    ),
                decreases self.attrs.len() - i,
            {
                out.append("    @{");
                let d = u64_to_dec(i as u64);
                out.append(d.as_str());
                out.append("}: {\"");
                out.append(self.attrs[i].0.as_str());
                out.append("\":\"");
                out.append(self.attrs[i].1.as_str());
                out.append("\"}\n");
                proof {
                    assert(out@ =~= header + "  Attrs:\n"@ + attr_lines(
                        attrs_view(self.attrs@),
                        i as int + 1,
                    ));
                }
                i = i + 1;
            }
            proof {
                assert(out@ =~= to_text_spec(*self, fmt, verbose, defined));
            }
        } else {
            proof {
                assert(out@ =~= to_text_spec(*self, fmt, verbose, defined));
            }
        }
        Ok(out)
    }
}

/// The next thing the caller must do while starting a device: write one
/// attribute value, write the rollback trigger, or stop with the result.
pub enum StartStep {
    WriteAttr { path: String, value: String },
    Rollback { remove_path: String },
    Done { result: Result<(), MdevError> },
}

/// What the caller observed for one requested attribute write.
pub enum AttrWriteOutcome {
    Written,
    MissingAttr,
    WriteError { cause: String },
}

/// What the caller reports back to the start flow.
pub enum StartInput {
    AttrWritten { outcome: AttrWriteOutcome },
    RolledBack { result: Result<(), String> },
}

pub enum StartPhase {
    Writing,
    RollingBack,
    Finished,
}

/// The state of one start operation after its create step succeeded:
/// which attribute is being written, and the error held for the caller
/// while the rollback it caused is in flight.
pub struct StartFlow {
    pub phase: StartPhase,
    pub idx: usize,
    pub pending: Option<MdevError>,
}

impl StartFlow {
    /// Well-formedness of a flow against its device: while writing, the
    /// index addresses an attribute and no error is held; while rolling
    /// back, the error to report is held.
    pub open spec fn wf(self, dev: MDev) -> bool {
        match self.phase {
            StartPhase::Writing => self.idx < dev.attrs@.len() && self.pending is None,
            StartPhase::RollingBack => self.pending is Some,
            StartPhase::Finished => true,
        }
    }
}

/// Everything one start-flow step guarantees, over the device and flow
/// before the step, the observed input, and the device, flow and step
/// after it. This is the whole contract of `MDev::start_step`, named so
/// that the rollback law can be stated over a chain of it.
pub open spec fn start_step_post(
    dev0: MDev,
    flow0: StartFlow,
    input: StartInput,
    dev1: MDev,
    flow1: StartFlow,
    r: StartStep,
) -> bool {
    &&& (flow1.wf(dev1))
    &&& (dev1.uuid == dev0.uuid)
    &&& (dev1.env == dev0.env)
    &&& (dev1.autostart == dev0.autostart)
    &&& (dev1.parent == dev0.parent)
    &&& (dev1.mdev_type == dev0.mdev_type)
    &&& (dev1.attrs == dev0.attrs)
    &&& (flow0.phase is Writing ==> (input matches StartInput::AttrWritten {
                outcome: AttrWriteOutcome::Written,
            } ==> ({
                &&& dev1 == dev0
                &&& (flow0.idx + 1 < dev0.attrs@.len() ==> {
                    &&& flow1.phase is Writing
                    &&& flow1.idx == flow0.idx + 1
                    &&& r matches StartStep::WriteAttr { path, value }
                        && path@ == dev0.path_spec() + seq!['/']
                            + attrs_view(dev0.attrs@)[flow0.idx + 1].0
                        && value@ == attrs_view(dev0.attrs@)[flow0.idx + 1].1
                })
                &&& (flow0.idx + 1 == dev0.attrs@.len() ==> {
                    &&& flow1.phase is Finished
                    &&& r matches StartStep::Done { result } && result is Ok
                })
            })))
    &&& (flow0.phase is Writing ==> (input matches StartInput::AttrWritten { outcome }
                ==> (!(outcome is Written) ==> ({
                &&& dev1 == dev0
                &&& flow1.phase is RollingBack
                &&& (outcome is MissingAttr ==> (flow1.pending matches Some(e)
                    && e matches MdevError::InvalidAttribute { name }
                    && name@ == attrs_view(dev0.attrs@)[flow0.idx as int].0))
                &&& (outcome matches AttrWriteOutcome::WriteError { cause }
                    ==> (flow1.pending matches Some(e)
                        && e matches MdevError::AttrWriteFailed { name, cause: c }
                        && name@ == attrs_view(dev0.attrs@)[flow0.idx as int].0
                        && c@ == cause@))
                &&& r matches StartStep::Rollback { remove_path }
                    && remove_path@ == dev0.path_spec() + seq!['/'] + "remove"@
            }))))
    &&& (flow0.phase is RollingBack ==> (input matches StartInput::RolledBack {
                result: Ok(()),
            } ==> ({
                &&& dev1.active == false
                &&& flow1.phase is Finished
                &&& r matches StartStep::Done { result } && result == Err::<(), MdevError>(
                    flow0.pending->Some_0,
                )
            })))
    &&& (flow0.phase is RollingBack ==> (input matches StartInput::RolledBack {
                result: Err(m),
            } ==> ({
                &&& dev1.active == dev0.active
                &&& flow1.phase is Finished
                &&& r matches StartStep::Done { result } && result matches Err(e)
                    && e matches MdevError::RemoveFailed { uuid, cause } && uuid@
                    == uuid_hyphenated(dev0.uuid) && cause@ == m@
            })))
}

impl MDev {
    /// Begins applying this device's attributes to the kernel tree, after
    /// `create` has succeeded. Yields the flow and the first step: the
    /// first attribute write, or immediate success when there are none.
    pub fn start(&self) -> (r: (StartFlow, StartStep))
        requires
            self.active,
        ensures
            r.0.wf(*self),
            self.attrs@.len() == 0 ==> ({
                &&& r.0.phase is Finished
                &&& r.1 matches StartStep::Done { result } && result is Ok
            }),
            self.attrs@.len() > 0 ==> {
                &&& r.0.phase is Writing
                &&& r.0.idx == 0
                &&& r.1 matches StartStep::WriteAttr { path, value } && path@ == self.path_spec()
                    + seq!['/'] + attrs_view(self.attrs@)[0].0 && value@ == attrs_view(
                    self.attrs@,
                )[0].1
            },
    {
        if self.attrs.len() == 0 {
            (
                StartFlow { phase: StartPhase::Finished, idx: 0, pending: None },
                StartStep::Done { result: Ok(()) },
            )
        } else {
            let path = self.attr_path(self.attrs[0].0.as_str());
            let value = self.attrs[0].1.clone();
            (
                StartFlow { phase: StartPhase::Writing, idx: 0, pending: None },
                StartStep::WriteAttr { path, value },
            )
        }
    }

    /// Advances the start flow by one observed outcome.
    ///
    /// While writing: a successful write moves to the next attribute, or
    /// finishes the start; a failed write holds that attribute's error and
    /// asks for the rollback — the wrapped device is never left
    /// half-configured. After the rollback: a successful removal
    /// deactivates the device and reports the original attribute error,
    /// never a rollback error; a failed removal reports the removal error
    /// and leaves the device active.
    pub fn start_step(&mut self, flow: &mut StartFlow, input: StartInput) -> (r: StartStep)
        requires
            old(flow).wf(*old(self)),
            old(flow).phase is Writing <==> input is AttrWritten,
            old(flow).phase is RollingBack <==> input is RolledBack,
            !(old(flow).phase is Finished),
        ensures
            start_step_post(*old(self), *old(flow), input, *final(self), *final(flow), r),
    {
        match input {
            StartInput::AttrWritten { outcome } => {
                match outcome {
                    AttrWriteOutcome::Written => {
                        let len = self.attrs.len();
                        let next = flow.idx + 1;
                        if next < len {
                            flow.idx = next;
                            let path = self.attr_path(self.attrs[next].0.as_str());
                            let value = self.attrs[next].1.clone();
                            StartStep::WriteAttr { path, value }
                        } else {
                            flow.phase = StartPhase::Finished;
                            StartStep::Done { result: Ok(()) }
                        }
                    },
                    AttrWriteOutcome::MissingAttr => {
                        let name = self.attrs[flow.idx].0.clone();
                        flow.pending = Some(MdevError::InvalidAttribute { name });
                        flow.phase = StartPhase::RollingBack;
                        StartStep::Rollback { remove_path: self.remove_path() }
                    },
                    AttrWriteOutcome::WriteError { cause } => {
                        let name = self.attrs[flow.idx].0.clone();
                        flow.pending = Some(MdevError::AttrWriteFailed { name, cause });
                        flow.phase = StartPhase::RollingBack;
                        StartStep::Rollback { remove_path: self.remove_path() }
                    },
                }
            },
            StartInput::RolledBack { result } => {
                let pending = flow.pending.take();
                flow.phase = StartPhase::Finished;
                match result {
                    Ok(_) => {
                        self.active = false;
                        match pending {
                            Some(e) => StartStep::Done { result: Err(e) },
                            None => StartStep::Done { result: Ok(()) },
                        }
                    },
                    Err(m) => StartStep::Done {
                        result: Err(
                            MdevError::RemoveFailed { uuid: self.uuid_str(), cause: m },
                        ),
                    },
                }
            },
        }
    }
}

/// Law: when an attribute write fails during a start and the rollback
/// removal succeeds, the device ends inactive — it is never left
/// half-configured — and the reported error is that attribute's own
/// error, never a rollback error.
pub proof fn lemma_start_rollback_leaves_device_inactive(
    dev0: MDev,
    flow0: StartFlow,
    outcome: AttrWriteOutcome,
    dev1: MDev,
    flow1: StartFlow,
    r1: StartStep,
    dev2: MDev,
    flow2: StartFlow,
    r2: StartStep,
)
    requires
        flow0.wf(dev0),
        flow0.phase is Writing,
        !(outcome is Written),
        start_step_post(dev0, flow0, StartInput::AttrWritten { outcome }, dev1, flow1, r1),
        start_step_post(dev1, flow1, StartInput::RolledBack { result: Ok(()) }, dev2, flow2, r2),
    ensures
        dev2.active == false,
        r1 is Rollback,
        r2 matches StartStep::Done { result } && result == Err::<(), MdevError>(
            flow1.pending->Some_0,
        ),
        outcome is MissingAttr ==> (flow1.pending matches Some(e)
            && e matches MdevError::InvalidAttribute { name } && name@ == attrs_view(
            dev0.attrs@,
        )[flow0.idx as int].0),
        (outcome matches AttrWriteOutcome::WriteError { cause } ==> (flow1.pending matches Some(e)
            && e matches MdevError::AttrWriteFailed { name, cause: c } && name@ == attrs_view(
            dev0.attrs@,
        )[flow0.idx as int].0 && c@ == cause@)),
{
    assert(flow1.phase is RollingBack);
}

/// Law: adding an attribute at a valid index and then deleting at the same
/// index restores the original attribute sequence, order and contents.
/// This is the sequence-level statement behind `add_attribute` followed by
/// `delete_attribute` with the same index.
pub proof fn lemma_add_delete_attribute_restores(
    attrs: Seq<(String, String)>,
    name: String,
    value: String,
    i: int,
)
    requires
        0 <= i <= attrs.len(),
    ensures
        attrs.insert(i, (name, value)).remove(i) == attrs,
{
    assert(attrs.insert(i, (name, value)).remove(i) =~= attrs);
}

/// Law: the definition document a device serializes (what `define`
/// persists) loads back into a fresh device with the same type, the same
/// autostart flag, and the same attribute sequence.
pub proof fn lemma_define_load_round_trip(dev: MDev)
    requires
        dev.mdev_type is Some,
    ensures
        load_ok(saved_doc(dev)),
        loaded_type(saved_doc(dev)) == opt_view(dev.mdev_type),
        loaded_autostart(saved_doc(dev)) == dev.autostart,
        loaded_attrs(Seq::<(Seq<char>, Seq<char>)>::empty(), saved_doc(dev)) == attrs_view(
            dev.attrs@,
        ),
{
    reveal_strlit("auto");
    reveal_strlit("manual");
    assert("auto"@.len() == 4);
    assert("manual"@.len() == 6);
    if !dev.autostart {
        assert(start_label(dev.autostart) != "auto"@);
    }
    assert(Seq::<(Seq<char>, Seq<char>)>::empty() + attrs_view(dev.attrs@) =~= attrs_view(
        dev.attrs@,
    ));
}

/// Representation of a mediated device type: a read-only capacity
/// snapshot.
pub struct MDevType {
    pub parent: String,
    pub typename: String,
    pub available_instances: i32,
    pub device_api: String,
    pub name: String,
    pub description: String,
}

impl MDevType {
    pub fn new() -> (r: MDevType)
        ensures
            r.parent@ == Seq::<char>::empty(),
            r.typename@ == Seq::<char>::empty(),
            r.available_instances == 0,
            r.device_api@ == Seq::<char>::empty(),
            r.name@ == Seq::<char>::empty(),
            r.description@ == Seq::<char>::empty(),
    {
        MDevType {
            parent: String::new(),
            typename: String::new(),
            available_instances: 0,
            device_api: String::new(),
            name: String::new(),
            description: String::new(),
        }
    }

    /// The JSON listing entry for this type: keyed by the type name, with
    /// name and description included only when non-empty.
    pub fn to_json(&self) -> (r: Result<String, MdevError>)
        ensures
            r matches Ok(s) && s@ == type_json(
                self.typename@,
                self.available_instances,
                self.device_api@,
                if self.name@.len() == 0 {
                    None
                } else {
                    Some(self.name@)
                },
                if self.description@.len() == 0 {
                    None
                } else {
                    Some(self.description@)
                },
            ),
    {
        let name_opt: Option<&String> = if self.name.as_str().is_empty() {
            None
        } else {
            Some(&self.name)
        };
        let descr_opt: Option<&String> = if self.description.as_str().is_empty() {
            None
        } else {
            Some(&self.description)
        };
        Ok(
            render_type_json(
                &self.typename,
                self.available_instances,
                &self.device_api,
                name_opt,
                descr_opt,
            ),
        )
    }
}

} // verus!
