//! The configuration that is built in: the features and defines of a static
//! QtCore on Linux with clang, as Qt's `configure` would choose them.

use vstd::prelude::*;
use vstd::string::*;

verus! {
/// The public features of the whole of Qt.
pub open spec fn global_feature_table() -> Seq<(Seq<char>, bool)> {
    seq![
        ("shared"@, false),
        ("static"@, true),
        ("cross_compile"@, false),
        ("framework"@, false),
        ("rpath"@, false),
        ("appstore_compliant"@, false),
        ("debug_and_release"@, false),
        ("simulator_and_device"@, false),
        ("thread"@, true),
        ("future"@, true),
        ("concurrent"@, true),
        ("dbus"@, false),
    ]
}

/// The public features of the whole of Qt.
pub fn global_features() -> (table: Vec<(&'static str, bool)>)
    ensures
        table.deep_view() == global_feature_table(),
{
    let table = vec![
        ("shared", false),
        ("static", true),
        ("cross_compile", false),
        ("framework", false),
        ("rpath", false),
        ("appstore_compliant", false),
        ("debug_and_release", false),
        ("simulator_and_device", false),
        ("thread", true),
        ("future", true),
        ("concurrent", true),
        ("dbus", false),
    ];
    assert(table.deep_view() =~= global_feature_table());
    table
}

/// The private features of the whole of Qt.
pub open spec fn global_private_feature_table() -> Seq<(Seq<char>, bool)> {
    seq![
        ("private_tests"@, false),
        ("reduce_exports"@, true),
        ("reduce_relocations"@, false),
        ("sse2"@, true),
        ("alloca_h"@, true),
        ("alloca"@, true),
        ("posix_fallocate"@, true),
        ("system_zlib"@, false),
        ("zstd"@, false),
        ("dlopen"@, true),
        ("relocatable"@, false),
        ("largefile"@, true),
    ]
}

/// The private features of the whole of Qt.
pub fn global_private_features() -> (table: Vec<(&'static str, bool)>)
    ensures
        table.deep_view() == global_private_feature_table(),
{
    let table = vec![
        ("private_tests", false),
        ("reduce_exports", true),
        ("reduce_relocations", false),
        ("sse2", true),
        ("alloca_h", true),
        ("alloca", true),
        ("posix_fallocate", true),
        ("system_zlib", false),
        ("zstd", false),
        ("dlopen", true),
        ("relocatable", false),
        ("largefile", true),
    ];
    assert(table.deep_view() =~= global_private_feature_table());
    table
}

/// The defines of the whole of Qt.
pub open spec fn global_define_table() -> Seq<(Seq<char>, Seq<char>)> {
    seq![
        ("QT_VERSION_STR"@, "\"6.2.0\""@),
        ("QT_VERSION_MAJOR"@, "6"@),
        ("QT_VERSION_MINOR"@, "2"@),
        ("QT_VERSION_PATCH"@, "0"@),
        ("QT_COMPILER_SUPPORTS_SSE2"@, "1"@),
        ("QT_NO_DBUS"@, "1"@),
    ]
}

/// The defines of the whole of Qt.
pub fn global_defines() -> (table: Vec<(&'static str, &'static str)>)
    ensures
        table.deep_view() == global_define_table(),
{
    let table = vec![
        ("QT_VERSION_STR", "\"6.2.0\""),
        ("QT_VERSION_MAJOR", "6"),
        ("QT_VERSION_MINOR", "2"),
        ("QT_VERSION_PATCH", "0"),
        ("QT_COMPILER_SUPPORTS_SSE2", "1"),
        ("QT_NO_DBUS", "1"),
    ];
    assert(table.deep_view() =~= global_define_table());
    table
}

/// The public features of QtCore.
pub open spec fn qt_core_feature_table() -> Seq<(Seq<char>, bool)> {
    seq![
        ("properties"@, true),
        ("animation"@, false),
        ("textcodec"@, false),
        ("codecs"@, false),
        ("commandlineparser"@, true),
        ("cxx11_future"@, true),
        ("itemmodel"@, false),
        ("proxymodel"@, false),
        ("library"@, false),
        ("mimetype"@, false),
        ("processenvironment"@, true),
        ("process"@, false),
        ("settings"@, false),
        ("regularexpression"@, true),
        ("sharedmemory"@, false),
        ("systemsemaphore"@, false),
        ("temporaryfile"@, true),
        ("timezone"@, false),
        ("translation"@, false),
        ("xmlstream"@, true),
        ("xmlstreamreader"@, true),
        ("xmlstreamwriter"@, true),
    ]
}

/// The public features of QtCore.
pub fn qt_core_features() -> (table: Vec<(&'static str, bool)>)
    ensures
        table.deep_view() == qt_core_feature_table(),
{
    let table = vec![
        ("properties", true),
        ("animation", false),
        ("textcodec", false),
        ("codecs", false),
        ("commandlineparser", true),
        ("cxx11_future", true),
        ("itemmodel", false),
        ("proxymodel", false),
        ("library", false),
        ("mimetype", false),
        ("processenvironment", true),
        ("process", false),
        ("settings", false),
        ("regularexpression", true),
        ("sharedmemory", false),
        ("systemsemaphore", false),
        ("temporaryfile", true),
        ("timezone", false),
        ("translation", false),
        ("xmlstream", true),
        ("xmlstreamreader", true),
        ("xmlstreamwriter", true),
    ];
    assert(table.deep_view() =~= qt_core_feature_table());
    table
}

/// The private features of QtCore.
pub open spec fn qt_core_private_feature_table() -> Seq<(Seq<char>, bool)> {
    seq![
        ("clock_gettime"@, true),
        ("datetimeparser"@, true),
        ("futimens"@, true),
        ("getauxval"@, true),
        ("glib"@, false),
        ("iconv"@, false),
        ("icu"@, false),
        ("inotify"@, true),
        ("poll_ppoll"@, true),
        ("poll_select"@, false),
        ("renameat2"@, false),
        ("statx"@, false),
        ("syslog"@, false),
        ("journald"@, false),
        ("linkat"@, true),
        ("threadsafe_cloexec"@, true),
        ("hijricalendar"@, false),
        ("islamiccivilcalendar"@, false),
        ("jalalicalendar"@, false),
    ]
}

/// The private features of QtCore.
pub fn qt_core_private_features() -> (table: Vec<(&'static str, bool)>)
    ensures
        table.deep_view() == qt_core_private_feature_table(),
{
    let table = vec![
        ("clock_gettime", true),
        ("datetimeparser", true),
        ("futimens", true),
        ("getauxval", true),
        ("glib", false),
        ("iconv", false),
        ("icu", false),
        ("inotify", true),
        ("poll_ppoll", true),
        ("poll_select", false),
        ("renameat2", false),
        ("statx", false),
        ("syslog", false),
        ("journald", false),
        ("linkat", true),
        ("threadsafe_cloexec", true),
        ("hijricalendar", false),
        ("islamiccivilcalendar", false),
        ("jalalicalendar", false),
    ];
    assert(table.deep_view() =~= qt_core_private_feature_table());
    table
}

/// The defines of QtCore.
pub open spec fn qt_core_define_table() -> Seq<(Seq<char>, Seq<char>)> {
    seq![
        ("QT_NO_ANIMATION"@, "1"@),
        ("QT_NO_TEXTCODEC"@, "1"@),
        ("QT_NO_SETTINGS"@, "1"@),
        ("QT_NO_TRANSLATION"@, "1"@),
    ]
}

/// The defines of QtCore.
pub fn qt_core_defines() -> (table: Vec<(&'static str, &'static str)>)
    ensures
        table.deep_view() == qt_core_define_table(),
{
    let table = vec![
        ("QT_NO_ANIMATION", "1"),
        ("QT_NO_TEXTCODEC", "1"),
        ("QT_NO_SETTINGS", "1"),
        ("QT_NO_TRANSLATION", "1"),
    ];
    assert(table.deep_view() =~= qt_core_define_table());
    table
}

} // verus!
