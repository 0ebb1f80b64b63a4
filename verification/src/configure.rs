//! The configuration of one module and the headers that carry it.
//!
//! A [`QtConfiguration`] is filled in call by call and holds no more than
//! what was put into it: the module's name, its features and defines (for
//! the whole of Qt and for the module, public and private), the header with
//! the platform's definitions, and the module's headers and sources. Filling
//! it in reads and writes no file. [`write_configuration`] turns it into the
//! configuration headers.

use vstd::prelude::*;
use vstd::string::*;
use crate::bucket::{
    distinct,
    entry_names,
    lemma_with_entries_distinct,
    lemma_with_entry_distinct,
    set_define_entry,
    set_feature_entry,
    with_entries,
    with_entry,
};
use crate::error::{ErrorView, GenError};
use crate::features::{
    global_define_table,
    global_defines,
    global_feature_table,
    global_features,
    global_private_feature_table,
    global_private_features,
    qt_core_define_table,
    qt_core_defines,
    qt_core_feature_table,
    qt_core_features,
    qt_core_private_feature_table,
    qt_core_private_features,
};
use crate::forwarding::{
    forwarding_header,
    private_destination,
    private_directory,
    write_forwarding_header,
    zero_or_one,
};
use crate::header::{
    FileView,
    GeneratedFile,
    HeaderFile,
    HeaderView,
    and_then_files,
    files_outcome,
};
use crate::paths::{join, path_join};
use crate::render::{config_header, render};
use crate::text::{ascii_lowercase, lowered};

verus! {

/// The four places that a feature or a define can belong to.
#[derive(Debug, Clone, Copy, PartialEq, Eq, Structural)]
pub enum Scope {
    /// The whole of Qt, for everyone.
    GlobalPublic,
    /// The whole of Qt, for Qt's own code.
    GlobalPrivate,
    /// The module, for everyone.
    ModulePublic,
    /// The module, for the module's own code.
    ModulePrivate,
}

/// The configuration of one module.
pub struct QtConfiguration {
    module_name: String,
    sentinel: String,
    qplatformdefs_path: Option<String>,
    global_features: Vec<(String, bool)>,
    global_private_features: Vec<(String, bool)>,
    module_features: Vec<(String, bool)>,
    module_private_features: Vec<(String, bool)>,
    global_defines: Vec<(String, String)>,
    global_private_defines: Vec<(String, String)>,
    module_defines: Vec<(String, String)>,
    module_private_defines: Vec<(String, String)>,
    headers: Vec<HeaderFile>,
    sources: Vec<String>,
}

/// The mathematical value of a [`QtConfiguration`].
pub struct ConfigView {
    pub module_name: Seq<char>,
    pub sentinel: Seq<char>,
    pub qplatformdefs_path: Option<Seq<char>>,
    pub global_features: Seq<(Seq<char>, bool)>,
    pub global_private_features: Seq<(Seq<char>, bool)>,
    pub module_features: Seq<(Seq<char>, bool)>,
    pub module_private_features: Seq<(Seq<char>, bool)>,
    pub global_defines: Seq<(Seq<char>, Seq<char>)>,
    pub global_private_defines: Seq<(Seq<char>, Seq<char>)>,
    pub module_defines: Seq<(Seq<char>, Seq<char>)>,
    pub module_private_defines: Seq<(Seq<char>, Seq<char>)>,
    pub headers: Seq<HeaderView>,
    pub sources: Seq<Seq<char>>,
}

impl ConfigView {
    /// The features of `scope`.
    pub open spec fn features(self, scope: Scope) -> Seq<(Seq<char>, bool)> {
        match scope {
            Scope::GlobalPublic => self.global_features,
            Scope::GlobalPrivate => self.global_private_features,
            Scope::ModulePublic => self.module_features,
            Scope::ModulePrivate => self.module_private_features,
        }
    }

    /// The defines of `scope`.
    pub open spec fn defines(self, scope: Scope) -> Seq<(Seq<char>, Seq<char>)> {
        match scope {
            Scope::GlobalPublic => self.global_defines,
            Scope::GlobalPrivate => self.global_private_defines,
            Scope::ModulePublic => self.module_defines,
            Scope::ModulePrivate => self.module_private_defines,
        }
    }

    /// This configuration with the features of `scope` replaced.
    pub open spec fn with_features(
        self,
        scope: Scope,
        features: Seq<(Seq<char>, bool)>,
    ) -> ConfigView {
        match scope {
            Scope::GlobalPublic => ConfigView { global_features: features, ..self },
            Scope::GlobalPrivate => ConfigView { global_private_features: features, ..self },
            Scope::ModulePublic => ConfigView { module_features: features, ..self },
            Scope::ModulePrivate => ConfigView { module_private_features: features, ..self },
        }
    }

    /// This configuration with the defines of `scope` replaced.
    pub open spec fn with_defines(
        self,
        scope: Scope,
        defines: Seq<(Seq<char>, Seq<char>)>,
    ) -> ConfigView {
        match scope {
            Scope::GlobalPublic => ConfigView { global_defines: defines, ..self },
            Scope::GlobalPrivate => ConfigView { global_private_defines: defines, ..self },
            Scope::ModulePublic => ConfigView { module_defines: defines, ..self },
            Scope::ModulePrivate => ConfigView { module_private_defines: defines, ..self },
        }
    }

    /// No bucket holds a name twice.
    pub open spec fn names_are_distinct(self) -> bool {
        &&& distinct(entry_names(self.global_features))
        &&& distinct(entry_names(self.global_private_features))
        &&& distinct(entry_names(self.module_features))
        &&& distinct(entry_names(self.module_private_features))
        &&& distinct(entry_names(self.global_defines))
        &&& distinct(entry_names(self.global_private_defines))
        &&& distinct(entry_names(self.module_defines))
        &&& distinct(entry_names(self.module_private_defines))
    }
}

/// The configuration that holds nothing.
pub open spec fn empty_configuration() -> ConfigView {
    ConfigView {
        module_name: Seq::empty(),
        sentinel: Seq::empty(),
        qplatformdefs_path: None,
        global_features: Seq::empty(),
        global_private_features: Seq::empty(),
        module_features: Seq::empty(),
        module_private_features: Seq::empty(),
        global_defines: Seq::empty(),
        global_private_defines: Seq::empty(),
        module_defines: Seq::empty(),
        module_private_defines: Seq::empty(),
        headers: Seq::empty(),
        sources: Seq::empty(),
    }
}

impl View for QtConfiguration {
    type V = ConfigView;

    closed spec fn view(&self) -> ConfigView {
        ConfigView {
            module_name: self.module_name@,
            sentinel: self.sentinel@,
            qplatformdefs_path: self.qplatformdefs_path.deep_view(),
            global_features: self.global_features.deep_view(),
            global_private_features: self.global_private_features.deep_view(),
            module_features: self.module_features.deep_view(),
            module_private_features: self.module_private_features.deep_view(),
            global_defines: self.global_defines.deep_view(),
            global_private_defines: self.global_private_defines.deep_view(),
            module_defines: self.module_defines.deep_view(),
            module_private_defines: self.module_private_defines.deep_view(),
            headers: self.headers.deep_view(),
            sources: self.sources.deep_view(),
        }
    }
}

impl QtConfiguration {
    #[verifier::type_invariant]
    spec fn well_formed(self) -> bool {
        self@.names_are_distinct()
    }

    /// A configuration that holds nothing yet.
    pub fn new() -> (config: QtConfiguration)
        ensures
            config@ == empty_configuration(),
    {
        let config = QtConfiguration {
            module_name: String::new(),
            sentinel: String::new(),
            qplatformdefs_path: None,
            global_features: Vec::new(),
            global_private_features: Vec::new(),
            module_features: Vec::new(),
            module_private_features: Vec::new(),
            global_defines: Vec::new(),
            global_private_defines: Vec::new(),
            module_defines: Vec::new(),
            module_private_defines: Vec::new(),
            headers: Vec::new(),
            sources: Vec::new(),
        };
        assert(config@.global_features =~= Seq::empty());
        assert(config@.global_private_features =~= Seq::empty());
        assert(config@.module_features =~= Seq::empty());
        assert(config@.module_private_features =~= Seq::empty());
        assert(config@.global_defines =~= Seq::empty());
        assert(config@.global_private_defines =~= Seq::empty());
        assert(config@.module_defines =~= Seq::empty());
        assert(config@.module_private_defines =~= Seq::empty());
        assert(config@.headers =~= Seq::empty());
        assert(config@.sources =~= Seq::empty());
        config
    }

    /// Sets the feature `name` of `scope` to `enabled`. A feature that the
    /// scope already holds keeps its place and takes the new value.
    pub fn set_feature(&mut self, scope: Scope, name: &str, enabled: bool)
        ensures
            final(self)@ == old(self)@.with_features(
                scope,
                with_entry(old(self)@.features(scope), name@, enabled),
            ),
            final(self)@.names_are_distinct(),
    {
        proof {
            use_type_invariant(&*self);
            lemma_with_entry_distinct(self@.features(scope), name@, enabled);
        }
        let mut bucket: Vec<(String, bool)> = Vec::new();
        assert(bucket.deep_view() =~= Seq::empty());
        match scope {
            Scope::GlobalPublic => {
                core::mem::swap(&mut self.global_features, &mut bucket);
                set_feature_entry(&mut bucket, name, enabled);
                self.global_features = bucket;
            },
            Scope::GlobalPrivate => {
                core::mem::swap(&mut self.global_private_features, &mut bucket);
                set_feature_entry(&mut bucket, name, enabled);
                self.global_private_features = bucket;
            },
            Scope::ModulePublic => {
                core::mem::swap(&mut self.module_features, &mut bucket);
                set_feature_entry(&mut bucket, name, enabled);
                self.module_features = bucket;
            },
            Scope::ModulePrivate => {
                core::mem::swap(&mut self.module_private_features, &mut bucket);
                set_feature_entry(&mut bucket, name, enabled);
                self.module_private_features = bucket;
            },
        }
    }

    /// Sets the define `key` of `scope` to `value`. A define that the scope
    /// already holds keeps its place and takes the new value.
    pub fn set_define(&mut self, scope: Scope, key: &str, value: &str)
        ensures
            final(self)@ == old(self)@.with_defines(
                scope,
                with_entry(old(self)@.defines(scope), key@, value@),
            ),
            final(self)@.names_are_distinct(),
    {
        proof {
            use_type_invariant(&*self);
            lemma_with_entry_distinct(self@.defines(scope), key@, value@);
        }
        let mut bucket: Vec<(String, String)> = Vec::new();
        assert(bucket.deep_view() =~= Seq::empty());
        match scope {
            Scope::GlobalPublic => {
                core::mem::swap(&mut self.global_defines, &mut bucket);
                set_define_entry(&mut bucket, key, value);
                self.global_defines = bucket;
            },
            Scope::GlobalPrivate => {
                core::mem::swap(&mut self.global_private_defines, &mut bucket);
                set_define_entry(&mut bucket, key, value);
                self.global_private_defines = bucket;
            },
            Scope::ModulePublic => {
                core::mem::swap(&mut self.module_defines, &mut bucket);
                set_define_entry(&mut bucket, key, value);
                self.module_defines = bucket;
            },
            Scope::ModulePrivate => {
                core::mem::swap(&mut self.module_private_defines, &mut bucket);
                set_define_entry(&mut bucket, key, value);
                self.module_private_defines = bucket;
            },
        }
    }

    /// Names the module.
    pub fn set_module_name(&mut self, name: &str)
        ensures
            final(self)@ == (ConfigView { module_name: name@, ..old(self)@ }),
    {
        proof {
            use_type_invariant(&*self);
        }
        self.module_name = String::from_str(name);
    }

    /// Sets the prefix that the module's type names begin with.
    pub fn set_sentinel(&mut self, sentinel: &str)
        ensures
            final(self)@ == (ConfigView { sentinel: sentinel@, ..old(self)@ }),
    {
        proof {
            use_type_invariant(&*self);
        }
        self.sentinel = String::from_str(sentinel);
    }

    /// Sets the path of the header with the platform's definitions, relative
    /// to the Qt sources.
    pub fn set_qplatformdefs_path(&mut self, path: &str)
        ensures
            final(self)@ == (ConfigView { qplatformdefs_path: Some(path@), ..old(self)@ }),
    {
        proof {
            use_type_invariant(&*self);
        }
        self.qplatformdefs_path = Some(String::from_str(path));
    }

    /// Adds a header to the module, after those it has.
    pub fn add_header(&mut self, header: HeaderFile)
        ensures
            final(self)@ == (ConfigView {
                headers: old(self)@.headers.push(header@),
                ..old(self)@
            }),
    {
        proof {
            use_type_invariant(&*self);
        }
        let mut headers: Vec<HeaderFile> = Vec::new();
        core::mem::swap(&mut self.headers, &mut headers);
        let ghost before = headers.deep_view();
        headers.push(header);
        assert(headers.deep_view() =~= before.push(header@));
        self.headers = headers;
    }

    /// Adds a source file to the module, after those it has.
    pub fn add_source(&mut self, source: &str)
        ensures
            final(self)@ == (ConfigView {
                sources: old(self)@.sources.push(source@),
                ..old(self)@
            }),
    {
        proof {
            use_type_invariant(&*self);
        }
        let mut sources: Vec<String> = Vec::new();
        core::mem::swap(&mut self.sources, &mut sources);
        let ghost before = sources.deep_view();
        sources.push(String::from_str(source));
        assert(sources.deep_view() =~= before.push(source@));
        self.sources = sources;
    }

    /// The module's name.
    pub fn module_name(&self) -> (name: &str)
        ensures
            name@ == self@.module_name,
    {
        self.module_name.as_str()
    }

    /// The prefix that the module's type names begin with.
    pub fn sentinel(&self) -> (sentinel: &str)
        ensures
            sentinel@ == self@.sentinel,
    {
        self.sentinel.as_str()
    }

    /// The path of the header with the platform's definitions, if one is set.
    pub fn qplatformdefs_path(&self) -> (path: Option<&str>)
        ensures
            path.deep_view() == self@.qplatformdefs_path,
    {
        match &self.qplatformdefs_path {
            Some(p) => Some(p.as_str()),
            None => None,
        }
    }

    /// The features of `scope`, in the order in which their names were first
    /// set. No name occurs twice.
    pub fn features(&self, scope: Scope) -> (bucket: &Vec<(String, bool)>)
        ensures
            bucket.deep_view() == self@.features(scope),
            distinct(entry_names(bucket.deep_view())),
    {
        proof {
            use_type_invariant(self);
        }
        match scope {
            Scope::GlobalPublic => &self.global_features,
            Scope::GlobalPrivate => &self.global_private_features,
            Scope::ModulePublic => &self.module_features,
            Scope::ModulePrivate => &self.module_private_features,
        }
    }

    /// The defines of `scope`, in the order in which their keys were first
    /// set. No key occurs twice.
    pub fn defines(&self, scope: Scope) -> (bucket: &Vec<(String, String)>)
        ensures
            bucket.deep_view() == self@.defines(scope),
            distinct(entry_names(bucket.deep_view())),
    {
        proof {
            use_type_invariant(self);
        }
        match scope {
            Scope::GlobalPublic => &self.global_defines,
            Scope::GlobalPrivate => &self.global_private_defines,
            Scope::ModulePublic => &self.module_defines,
            Scope::ModulePrivate => &self.module_private_defines,
        }
    }

    /// The module's headers, in the order in which they were added.
    pub fn headers(&self) -> (headers: &Vec<HeaderFile>)
        ensures
            headers.deep_view() == self@.headers,
    {
        &self.headers
    }

    /// The module's source files, in the order in which they were added.
    pub fn sources(&self) -> (sources: &Vec<String>)
        ensures
            sources.deep_view() == self@.sources,
    {
        &self.sources
    }
}

impl Default for QtConfiguration {
    fn default() -> (config: QtConfiguration)
        ensures
            config@ == empty_configuration(),
    {
        QtConfiguration::new()
    }
}

/// The bucket that setting every entry of `table` in turn leaves.
pub open spec fn bucket_of<V>(table: Seq<(Seq<char>, V)>) -> Seq<(Seq<char>, V)> {
    with_entries(Seq::empty(), table, table.len())
}

/// The configuration that is built in, laid over `before`: QtCore on Linux
/// with clang. The module's headers and sources stay as they were.
pub open spec fn default_configuration(before: ConfigView) -> ConfigView {
    ConfigView {
        module_name: "QtCore"@,
        sentinel: "Q"@,
        qplatformdefs_path: Some("qtbase/mkspecs/linux-clang/qplatformdefs.h"@),
        global_features: bucket_of(global_feature_table()),
        global_private_features: bucket_of(global_private_feature_table()),
        module_features: bucket_of(qt_core_feature_table()),
        module_private_features: bucket_of(qt_core_private_feature_table()),
        global_defines: bucket_of(global_define_table()),
        global_private_defines: Seq::empty(),
        module_defines: bucket_of(qt_core_define_table()),
        module_private_defines: Seq::empty(),
        headers: before.headers,
        sources: before.sources,
    }
}

/// Builds a bucket of features from a table, entry by entry.
fn features_from(table: &Vec<(&'static str, bool)>) -> (bucket: Vec<(String, bool)>)
    ensures
        bucket.deep_view() == bucket_of(table.deep_view()),
        distinct(entry_names(bucket.deep_view())),
{
    let mut bucket: Vec<(String, bool)> = Vec::new();
    let mut i: usize = 0;
    assert(bucket.deep_view() =~= Seq::empty());
    while i < table.len()
        invariant
            i <= table@.len(),
            bucket.deep_view() == with_entries(Seq::empty(), table.deep_view(), i as nat),
        decreases table@.len() - i,
    {
        proof {
            assert(table.deep_view()[i as int] == (table@[i as int].0@, table@[i as int].1));
        }
        set_feature_entry(&mut bucket, table[i].0, table[i].1);
        i += 1;
    }
    proof {
        lemma_with_entries_distinct(
            Seq::<(Seq<char>, bool)>::empty(),
            table.deep_view(),
            table@.len(),
        );
    }
    bucket
}

/// Builds a bucket of defines from a table, entry by entry.
fn defines_from(table: &Vec<(&'static str, &'static str)>) -> (bucket: Vec<(String, String)>)
    ensures
        bucket.deep_view() == bucket_of(table.deep_view()),
        distinct(entry_names(bucket.deep_view())),
{
    let mut bucket: Vec<(String, String)> = Vec::new();
    let mut i: usize = 0;
    assert(bucket.deep_view() =~= Seq::empty());
    while i < table.len()
        invariant
            i <= table@.len(),
            bucket.deep_view() == with_entries(Seq::empty(), table.deep_view(), i as nat),
        decreases table@.len() - i,
    {
        proof {
            assert(table.deep_view()[i as int] == (table@[i as int].0@, table@[i as int].1@));
        }
        set_define_entry(&mut bucket, table[i].0, table[i].1);
        i += 1;
    }
    proof {
        lemma_with_entries_distinct(
            Seq::<(Seq<char>, Seq<char>)>::empty(),
            table.deep_view(),
            table@.len(),
        );
    }
    bucket
}

/// Lays the built-in configuration over `qt_configuration`: the module is
/// QtCore, its type names begin with `Q`, the platform's definitions are
/// those of Linux with clang, and every bucket holds the built-in entries.
pub fn set_default_configuration(qt_configuration: &mut QtConfiguration)
    ensures
        final(qt_configuration)@ == default_configuration(old(qt_configuration)@),
{
    proof {
        use_type_invariant(&*qt_configuration);
    }
    qt_configuration.module_name = String::from_str("QtCore");
    qt_configuration.sentinel = String::from_str("Q");
    qt_configuration.qplatformdefs_path = Some(
        String::from_str("qtbase/mkspecs/linux-clang/qplatformdefs.h"),
    );
    qt_configuration.global_features = features_from(&global_features());
    qt_configuration.global_private_features = features_from(&global_private_features());
    qt_configuration.global_defines = defines_from(&global_defines());
    qt_configuration.global_private_defines = Vec::new();
    qt_configuration.module_features = features_from(&qt_core_features());
    qt_configuration.module_private_features = features_from(&qt_core_private_features());
    qt_configuration.module_defines = defines_from(&qt_core_defines());
    qt_configuration.module_private_defines = Vec::new();
    assert(qt_configuration@.global_private_defines =~= Seq::empty());
    assert(qt_configuration@.module_private_defines =~= Seq::empty());
}

/// The directory of the module's public configuration headers below
/// `destination`: it is named after the module in lower case.
pub open spec fn module_directory(destination: Seq<char>, config: ConfigView) -> Seq<char> {
    join(destination, lowered(config.module_name))
}

/// The four configuration headers of `config` below `destination`: the
/// public and the private header of the whole of Qt, then the public and the
/// private header of the module.
pub open spec fn configuration_headers(
    config: ConfigView,
    destination: Seq<char>,
) -> Seq<FileView> {
    let public = module_directory(destination, config);
    let private = private_destination(public);
    let stem = lowered(config.module_name);
    seq![
        FileView {
            path: join(public, "qconfig.h"@),
            content: config_header(config.global_defines, config.global_features),
        },
        FileView {
            path: join(private, "qconfig_p.h"@),
            content: config_header(config.global_private_defines, config.global_private_features),
        },
        FileView {
            path: join(public, stem + "-config.h"@),
            content: config_header(config.module_defines, config.module_features),
        },
        FileView {
            path: join(private, stem + "-config_p.h"@),
            content: config_header(config.module_private_defines, config.module_private_features),
        },
    ]
}

/// The forwarding header to the platform's definitions, if there is a header
/// to point it to. It stands beside the public configuration headers.
pub open spec fn platform_forwarding(
    config: ConfigView,
    destination: Seq<char>,
    platform: Option<HeaderView>,
) -> Result<Seq<FileView>, ErrorView> {
    match platform {
        None => Ok(Seq::empty()),
        Some(header) => zero_or_one(
            forwarding_header(module_directory(destination, config), header),
        ),
    }
}

/// The files that carry `config`: its four configuration headers and the
/// forwarding header to the platform's definitions.
pub open spec fn configuration(
    config: ConfigView,
    destination: Seq<char>,
    platform: Option<HeaderView>,
) -> Result<Seq<FileView>, ErrorView> {
    and_then_files(
        Ok(configuration_headers(config, destination)),
        platform_forwarding(config, destination, platform),
    )
}

/// Makes the configuration header at `path` from its defines and features.
pub fn write_config_header(
    path: &str,
    defines: &[(String, String)],
    features: &[(String, bool)],
) -> (file: GeneratedFile)
    ensures
        file@ == (FileView {
            path: path@,
            content: config_header(defines.deep_view(), features.deep_view()),
        }),
{
    GeneratedFile { path: String::from_str(path), content: render(defines, features) }
}

/// Makes the files that carry `qt_configuration` below `destination_path`:
/// the four configuration headers, and the forwarding header to
/// `platform_definitions` if there is one to point it to.
pub fn write_configuration(
    qt_configuration: &QtConfiguration,
    destination_path: &str,
    platform_definitions: Option<&HeaderFile>,
) -> (files: Result<Vec<GeneratedFile>, GenError>)
    ensures
        files_outcome(files) == configuration(
            qt_configuration@,
            destination_path@,
            platform_definitions.deep_view(),
        ),
{
    let stem = ascii_lowercase(qt_configuration.module_name.as_str());
    let public_path = path_join(destination_path, stem.as_str());
    let private_path = private_directory(public_path.as_str());
    let module_header = stem.clone().concat("-config.h");
    let module_private_header = stem.concat("-config_p.h");

    let mut files: Vec<GeneratedFile> = Vec::new();
    files.push(
        write_config_header(
            path_join(public_path.as_str(), "qconfig.h").as_str(),
            qt_configuration.global_defines.as_slice(),
            qt_configuration.global_features.as_slice(),
        ),
    );
    files.push(
        write_config_header(
            path_join(private_path.as_str(), "qconfig_p.h").as_str(),
            qt_configuration.global_private_defines.as_slice(),
            qt_configuration.global_private_features.as_slice(),
        ),
    );
    files.push(
        write_config_header(
            path_join(public_path.as_str(), module_header.as_str()).as_str(),
            qt_configuration.module_defines.as_slice(),
            qt_configuration.module_features.as_slice(),
        ),
    );
    files.push(
        write_config_header(
            path_join(private_path.as_str(), module_private_header.as_str()).as_str(),
            qt_configuration.module_private_defines.as_slice(),
            qt_configuration.module_private_features.as_slice(),
        ),
    );
    assert(files.deep_view() =~= configuration_headers(qt_configuration@, destination_path@));
    match platform_definitions {
        None => {
            assert(files.deep_view() + Seq::<FileView>::empty() =~= files.deep_view());
            Ok(files)
        },
        Some(header) => match write_forwarding_header(public_path.as_str(), header) {
            Err(e) => Err(e),
            Ok(None) => {
                assert(files.deep_view() + Seq::<FileView>::empty() =~= files.deep_view());
                Ok(files)
            },
            Ok(Some(f)) => {
                let ghost before = files.deep_view();
                files.push(f);
                assert(files.deep_view() =~= before + seq![f@]);
                Ok(files)
            },
        },
    }
}

} // verus!
