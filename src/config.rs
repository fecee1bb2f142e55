//! The per-package build configuration and its model.
use vstd::prelude::*;

use crate::descriptor::{
    definition_lines, descriptor_text, directive_lines, pair_views, target_declaration, BLANK,
    INCLUDE_DIRECTORY_OPEN, INSTALL_RULES, LIB_NAME_OPEN, LINK_DIRECTORY_OPEN, LINK_LIBRARY_OPEN,
    OPENING, ROOT_CLOSE, ROOT_OPEN, SOURCES,
};
use crate::paths::{forward_slashes, join, join_path, normalize_separators, views};
use crate::registry::{entry_views, foreign_entries, EntryView, RegistryEntry};
use crate::session::{
    directives, invocation, next_action, next_config, own_entry, Action, Event, Phase,
    SessionError, ToolInvocation, DESCRIPTOR_FILE, LIB_DIR, LINK_LIB_DIRECTIVE,
    LINK_SEARCH_DIRECTIVE, PROFILE_VARIABLE,
};

verus! {

/// What the build produces: a static library, a shared library or a program.
#[derive(Debug, Clone, Copy, PartialEq, Eq, Structural)]
pub enum LinkType {
    Static,
    Dynamic,
    Executables,
}

/// A required setting of the build environment that was absent.
#[derive(Debug, Clone, Copy, PartialEq, Eq, Structural)]
pub enum ConfigError {
    MissingOutDir,
    MissingManifestDir,
    MissingPackageName,
    MissingProfile,
}

/// Appended to the output directory to reach the registry shared by every
/// package of one top-level build.
pub const REGISTRY_SUFFIX: &'static str = "/../../../cmake-links";

/// The public header directory under a package root.
pub const HEADER_DIR: &'static str = "include";

/// The mathematical model of a `Config`.
pub struct ConfigView {
    /// The package root, with forward slashes.
    pub root: Seq<char>,
    pub name: Seq<char>,
    pub profile: Seq<char>,
    pub out_dir: Seq<char>,
    pub registry_dir: Seq<char>,
    pub kind: LinkType,
    pub libs: Seq<Seq<char>>,
    pub defines: Seq<(Seq<char>, Seq<char>)>,
    pub link_paths: Seq<Seq<char>>,
    pub include_paths: Seq<Seq<char>>,
    /// Where a build session stands.
    pub phase: Phase,
}

/// The configuration of a package that has just been set up from its
/// environment.
pub open spec fn fresh_config(
    out_dir: Seq<char>,
    manifest_dir: Seq<char>,
    name: Seq<char>,
    profile: Seq<char>,
) -> ConfigView {
    ConfigView {
        root: forward_slashes(manifest_dir),
        name,
        profile,
        out_dir,
        registry_dir: out_dir + REGISTRY_SUFFIX@,
        kind: LinkType::Static,
        libs: Seq::empty(),
        defines: Seq::empty(),
        link_paths: Seq::empty(),
        include_paths: seq![join(forward_slashes(manifest_dir), HEADER_DIR@)],
        phase: Phase::Idle,
    }
}

/// `v` after taking in the registry records `entries`: for each record of
/// another package, in order, its name as a library to link, and the `lib`
/// and header directories under its output as search paths.
pub open spec fn absorbed(v: ConfigView, entries: Seq<EntryView>) -> ConfigView {
    let found = foreign_entries(entries, v.name);
    ConfigView {
        libs: v.libs + found.map_values(|e: EntryView| e.name),
        link_paths: v.link_paths + found.map_values(
            |e: EntryView| join(forward_slashes(e.location), LIB_DIR@),
        ),
        include_paths: v.include_paths + found.map_values(
            |e: EntryView| join(forward_slashes(e.location), HEADER_DIR@),
        ),
        ..v
    }
}

/// Build settings of one package, accumulated before `build`.
pub struct Config {
    root: String,
    name: String,
    profile: String,
    out_dir: String,
    registry_dir: String,
    kind: LinkType,
    libs: Vec<String>,
    defines: Vec<(String, String)>,
    link_paths: Vec<String>,
    include_paths: Vec<String>,
    phase: Phase,
}

impl View for Config {
    type V = ConfigView;

    closed spec fn view(&self) -> ConfigView {
        ConfigView {
            root: self.root@,
            name: self.name@,
            profile: self.profile@,
            out_dir: self.out_dir@,
            registry_dir: self.registry_dir@,
            kind: self.kind,
            libs: views(self.libs@),
            defines: pair_views(self.defines@),
            link_paths: views(self.link_paths@),
            include_paths: views(self.include_paths@),
            phase: self.phase,
        }
    }
}

impl Config {
    /// A configuration for the package `package` whose sources lie under
    /// `manifest_dir` and whose build output goes to `out_dir`.
    pub fn new(out_dir: &str, manifest_dir: &str, package: &str, profile: &str) -> (r: Config)
        ensures
            r@ == fresh_config(out_dir@, manifest_dir@, package@, profile@),
    {
        let root = normalize_separators(manifest_dir);
        let mut registry_dir = out_dir.to_string();
        registry_dir.append(REGISTRY_SUFFIX);
        let headers = join_path(root.as_str(), HEADER_DIR);
        let mut include_paths: Vec<String> = Vec::new();
        include_paths.push(headers);
        let r = Config {
            root,
            name: package.to_string(),
            profile: profile.to_string(),
            out_dir: out_dir.to_string(),
            registry_dir,
            kind: LinkType::Static,
            libs: Vec::new(),
            defines: Vec::new(),
            link_paths: Vec::new(),
            include_paths,
            phase: Phase::Idle,
        };
        assert(r@.include_paths =~= seq![join(forward_slashes(manifest_dir@), HEADER_DIR@)]);
        assert(r@.libs =~= Seq::<Seq<char>>::empty());
        assert(r@.link_paths =~= Seq::<Seq<char>>::empty());
        assert(r@.defines =~= Seq::<(Seq<char>, Seq<char>)>::empty());
        r
    }

    /// A configuration from the four settings of the build environment, or
    /// the first of them, in the order of the parameters, that is absent.
    pub fn load(
        out_dir: Option<String>,
        manifest_dir: Option<String>,
        package: Option<String>,
        profile: Option<String>,
    ) -> (r: Result<Config, ConfigError>)
        ensures
            out_dir is None ==> r == Err::<Config, ConfigError>(ConfigError::MissingOutDir),
            out_dir is Some && manifest_dir is None ==> r == Err::<Config, ConfigError>(
                ConfigError::MissingManifestDir,
            ),
            out_dir is Some && manifest_dir is Some && package is None ==> r == Err::<
                Config,
                ConfigError,
            >(ConfigError::MissingPackageName),
            out_dir is Some && manifest_dir is Some && package is Some && profile is None ==> r
                == Err::<Config, ConfigError>(ConfigError::MissingProfile),
            out_dir is Some && manifest_dir is Some && package is Some && profile is Some ==> r
                is Ok && r->Ok_0@ == fresh_config(
                out_dir->Some_0@,
                manifest_dir->Some_0@,
                package->Some_0@,
                profile->Some_0@,
            ),
    {
        match (out_dir, manifest_dir, package, profile) {
            (None, _, _, _) => Err(ConfigError::MissingOutDir),
            (Some(_), None, _, _) => Err(ConfigError::MissingManifestDir),
            (Some(_), Some(_), None, _) => Err(ConfigError::MissingPackageName),
            (Some(_), Some(_), Some(_), None) => Err(ConfigError::MissingProfile),
            (Some(o), Some(m), Some(p), Some(q)) => Ok(
                Config::new(o.as_str(), m.as_str(), p.as_str(), q.as_str()),
            ),
        }
    }

    /// Sets the package name.
    pub fn project(&mut self, name: &str) -> (r: &mut Self)
        ensures
            r@ == (ConfigView { name: name@, ..old(self)@ }),
            *final(self) == *final(r),
    {
        self.name = name.to_string();
        self
    }

    /// Sets the build profile handed to CMake.
    pub fn profile(&mut self, profile: &str) -> (r: &mut Self)
        ensures
            r@ == (ConfigView { profile: profile@, ..old(self)@ }),
            *final(self) == *final(r),
    {
        self.profile = profile.to_string();
        self
    }

    /// Sets what the build produces.
    pub fn link_type(&mut self, kind: LinkType) -> (r: &mut Self)
        ensures
            r@ == (ConfigView { kind, ..old(self)@ }),
            *final(self) == *final(r),
    {
        self.kind = kind;
        self
    }

    /// Adds a header search directory.
    pub fn include_dir(&mut self, path: &str) -> (r: &mut Self)
        ensures
            r@ == (ConfigView { include_paths: old(self)@.include_paths.push(path@), ..old(self)@ }),
            *final(self) == *final(r),
    {
        self.include_paths.push(path.to_string());
        assert(views(self.include_paths@) =~= views(old(self).include_paths@).push(path@));
        self
    }

    /// Adds a library search directory.
    pub fn link_path(&mut self, path: &str) -> (r: &mut Self)
        ensures
            r@ == (ConfigView { link_paths: old(self)@.link_paths.push(path@), ..old(self)@ }),
            *final(self) == *final(r),
    {
        self.link_paths.push(path.to_string());
        assert(views(self.link_paths@) =~= views(old(self).link_paths@).push(path@));
        self
    }

    /// Adds a library to link against.
    pub fn link(&mut self, lib: &str) -> (r: &mut Self)
        ensures
            r@ == (ConfigView { libs: old(self)@.libs.push(lib@), ..old(self)@ }),
            *final(self) == *final(r),
    {
        self.libs.push(lib.to_string());
        assert(views(self.libs@) =~= views(old(self).libs@).push(lib@));
        self
    }

    /// Adds the preprocessor definition `name=value`.
    pub fn define(&mut self, name: &str, value: &str) -> (r: &mut Self)
        ensures
            r@ == (ConfigView { defines: old(self)@.defines.push((name@, value@)), ..old(self)@ }),
            *final(self) == *final(r),
    {
        self.defines.push((name.to_string(), value.to_string()));
        assert(pair_views(self.defines@) =~= pair_views(old(self).defines@).push((name@, value@)));
        self
    }

    /// The CMake description of this configuration.
    pub fn generator(&self) -> (r: String)
        ensures
            r@ == descriptor_text(self@),
    {
        let mut text = OPENING.to_string();
        text.append(self.name.as_str());
        text.append(LIB_NAME_OPEN);
        text.append(self.name.as_str());
        text.append(ROOT_OPEN);
        text.append(self.root.as_str());
        text.append(ROOT_CLOSE);
        text.append(SOURCES);
        text.append(target_declaration(self.kind));
        let definitions = definition_lines(&self.defines);
        text.append(definitions.as_str());
        text.append(BLANK);
        let link_dirs = directive_lines(LINK_DIRECTORY_OPEN, &self.link_paths);
        text.append(link_dirs.as_str());
        text.append(BLANK);
        let header_dirs = directive_lines(INCLUDE_DIRECTORY_OPEN, &self.include_paths);
        text.append(header_dirs.as_str());
        text.append(BLANK);
        let libraries = directive_lines(LINK_LIBRARY_OPEN, &self.libs);
        text.append(libraries.as_str());
        text.append(INSTALL_RULES);
        text
    }

    /// Takes in the registry records `entries`: each record of another
    /// package adds that package as a library and its output's `lib` and
    /// header directories as search paths.
    pub fn absorb_registry(&mut self, entries: &Vec<RegistryEntry>)
        ensures
            final(self)@ == absorbed(old(self)@, entry_views(entries@)),
    {
        let ghost start = self@;
        let ghost es = entry_views(entries@);
        let mut i: usize = 0;
        while i < entries.len()
            invariant
                i <= entries.len(),
                es == entry_views(entries@),
                start.name == self.name@,
                self@ == absorbed(start, es.take(i as int)),
            decreases entries.len() - i,
        {
            let ghost before = self@;
            let entry = &entries[i];
            let ghost found = foreign_entries(es.take(i as int), start.name);
            proof {
                reveal(Seq::filter);
            }
            assert(es.take(i + 1).drop_last() =~= es.take(i as int));
            assert(es.take(i + 1).last() == entry@);
            if !(entry.name == self.name) {
                let location = normalize_separators(entry.location.as_str());
                self.libs.push(entry.name.clone());
                self.link_paths.push(join_path(location.as_str(), LIB_DIR));
                self.include_paths.push(join_path(location.as_str(), HEADER_DIR));
                let ghost next = found.push(entry@);
                assert(foreign_entries(es.take(i + 1), start.name) == next);
                assert(views(self.libs@) =~= before.libs.push(entry.name@));
                assert(views(self.link_paths@) =~= before.link_paths.push(
                    join(forward_slashes(entry.location@), LIB_DIR@),
                ));
                assert(views(self.include_paths@) =~= before.include_paths.push(
                    join(forward_slashes(entry.location@), HEADER_DIR@),
                ));
                assert(next.map_values(|e: EntryView| e.name) =~= found.map_values(
                    |e: EntryView| e.name,
                ).push(entry.name@));
                assert(next.map_values(
                    |e: EntryView| join(forward_slashes(e.location), LIB_DIR@),
                ) =~= found.map_values(
                    |e: EntryView| join(forward_slashes(e.location), LIB_DIR@),
                ).push(join(forward_slashes(entry.location@), LIB_DIR@)));
                assert(next.map_values(
                    |e: EntryView| join(forward_slashes(e.location), HEADER_DIR@),
                ) =~= found.map_values(
                    |e: EntryView| join(forward_slashes(e.location), HEADER_DIR@),
                ).push(join(forward_slashes(entry.location@), HEADER_DIR@)));
                assert(self@.libs =~= absorbed(start, es.take(i + 1)).libs);
                assert(self@.link_paths =~= absorbed(start, es.take(i + 1)).link_paths);
                assert(self@.include_paths =~= absorbed(start, es.take(i + 1)).include_paths);
            } else {
                assert(foreign_entries(es.take(i + 1), start.name) == found);
            }
            i = i + 1;
        }
        assert(es.take(i as int) =~= es);
    }

    /// The run of CMake on the project in `dir`.
    pub fn tool_invocation(&self, dir: &str) -> (r: ToolInvocation)
        ensures
            r@ == invocation(self@, dir@),
    {
        let mut bindings: Vec<(String, String)> = Vec::new();
        bindings.push((PROFILE_VARIABLE.to_string(), self.profile.clone()));
        let mut i: usize = 0;
        while i < self.defines.len()
            invariant
                i <= self.defines.len(),
                pair_views(bindings@) =~= seq![(PROFILE_VARIABLE@, self.profile@)]
                    + pair_views(self.defines@).take(i as int),
            decreases self.defines.len() - i,
        {
            let pair = &self.defines[i];
            let ghost bound = bindings@;
            bindings.push((pair.0.clone(), pair.1.clone()));
            assert(pair_views(bindings@) =~= pair_views(bound).push((pair.0@, pair.1@)));
            assert(pair_views(self.defines@).take(i + 1) =~= pair_views(self.defines@).take(
                i as int,
            ).push((pair.0@, pair.1@)));
            i = i + 1;
        }
        assert(pair_views(self.defines@).take(i as int) =~= pair_views(self.defines@));
        ToolInvocation {
            project_dir: dir.to_string(),
            profile: self.profile.clone(),
            bindings,
        }
    }

    /// The lines handed to the enclosing build once the package is built.
    pub fn link_directives(&self) -> (r: Vec<String>)
        ensures
            views(r@) == directives(self@),
    {
        let mut r: Vec<String> = Vec::new();
        match self.kind {
            LinkType::Executables => {},
            _ => {
                let mut search = LINK_SEARCH_DIRECTIVE.to_string();
                let lib_dir = join_path(self.out_dir.as_str(), LIB_DIR);
                search.append(lib_dir.as_str());
                let mut link = LINK_LIB_DIRECTIVE.to_string();
                link.append(self.name.as_str());
                r.push(search);
                r.push(link);
            },
        }
        assert(views(r@) =~= directives(self@));
        r
    }

    /// The record this package leaves in the registry.
    pub fn registry_entry(&self) -> (r: RegistryEntry)
        ensures
            r@ == own_entry(self@),
    {
        RegistryEntry { name: self.name.clone(), location: self.out_dir.clone() }
    }

    /// Starts a build: first asks whether a hand-written description stands
    /// at the project root.
    pub fn build(&mut self) -> (r: Action)
        ensures
            final(self)@ == (ConfigView { phase: Phase::RootChecked, ..old(self)@ }),
            r@ == crate::session::ActionView::CheckRootDescriptor(
                crate::session::root_descriptor_path(old(self)@),
            ),
    {
        self.phase = Phase::RootChecked;
        Action::CheckRootDescriptor { path: join_path(self.root.as_str(), DESCRIPTOR_FILE) }
    }

    /// Starts the build of a program.
    pub fn build_exce(&mut self) -> (r: Action)
        ensures
            final(self)@ == (ConfigView {
                phase: Phase::RootChecked,
                kind: LinkType::Executables,
                ..old(self)@
            }),
            r@ == crate::session::ActionView::CheckRootDescriptor(
                crate::session::root_descriptor_path(old(self)@),
            ),
    {
        self.kind = LinkType::Executables;
        self.build()
    }

    /// Starts the build of a static library.
    pub fn build_static_lib(&mut self) -> (r: Action)
        ensures
            final(self)@ == (ConfigView {
                phase: Phase::RootChecked,
                kind: LinkType::Static,
                ..old(self)@
            }),
            r@ == crate::session::ActionView::CheckRootDescriptor(
                crate::session::root_descriptor_path(old(self)@),
            ),
    {
        self.kind = LinkType::Static;
        self.build()
    }

    /// Starts the build of a shared library.
    pub fn build_dynamic_lib(&mut self) -> (r: Action)
        ensures
            final(self)@ == (ConfigView {
                phase: Phase::RootChecked,
                kind: LinkType::Dynamic,
                ..old(self)@
            }),
            r@ == crate::session::ActionView::CheckRootDescriptor(
                crate::session::root_descriptor_path(old(self)@),
            ),
    {
        self.kind = LinkType::Dynamic;
        self.build()
    }

    /// Takes the answer to the pending action and returns the next one.
    /// An event that answers nothing pending is refused and changes nothing.
    pub fn step(&mut self, event: Event) -> (r: Result<Action, SessionError>)
        ensures
            final(self)@ == next_config(old(self)@, event@),
            match r {
                Ok(a) => next_action(old(self)@, event@) == Some(a@),
                Err(e) => next_action(old(self)@, event@) is None && e
                    == SessionError::UnexpectedEvent,
            },
    {
        match (self.phase, event) {
            (Phase::RootChecked, Event::Found(true)) => {
                self.phase = Phase::ToolFinished;
                Ok(Action::RunTool { invocation: self.tool_invocation(self.root.as_str()) })
            },
            (Phase::RootChecked, Event::Found(false)) => {
                self.phase = Phase::RegistryScanned;
                Ok(Action::ScanRegistry { dir: self.registry_dir.clone() })
            },
            (Phase::RegistryScanned, Event::Scanned(entries)) => {
                self.absorb_registry(&entries);
                self.phase = Phase::OutputChecked;
                Ok(
                    Action::CheckOutputDescriptor {
                        path: join_path(self.out_dir.as_str(), DESCRIPTOR_FILE),
                    },
                )
            },
            (Phase::OutputChecked, Event::Found(true)) => {
                self.phase = Phase::ToolFinished;
                Ok(Action::RunTool { invocation: self.tool_invocation(self.out_dir.as_str()) })
            },
            (Phase::OutputChecked, Event::Found(false)) => {
                let text = self.generator();
                self.phase = Phase::DescriptorWritten;
                Ok(
                    Action::WriteDescriptor {
                        path: join_path(self.out_dir.as_str(), DESCRIPTOR_FILE),
                        text,
                    },
                )
            },
            (Phase::DescriptorWritten, Event::Written) => {
                self.phase = Phase::ToolFinished;
                Ok(Action::RunTool { invocation: self.tool_invocation(self.out_dir.as_str()) })
            },
            (Phase::ToolFinished, Event::ToolFinished) => {
                self.phase = Phase::Published;
                Ok(Action::Publish { dir: self.registry_dir.clone(), entry: self.registry_entry() })
            },
            (Phase::Published, Event::Published) => {
                self.phase = Phase::Done;
                Ok(Action::Finish { directives: self.link_directives() })
            },
            _ => Err(SessionError::UnexpectedEvent),
        }
    }
}

} // verus!
