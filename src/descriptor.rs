//! The CMake project description generated for a package.
use vstd::prelude::*;

use crate::config::{ConfigView, LinkType};
use crate::paths::views;

verus! {

pub const OPENING: &'static str = "CMAKE_MINIMUM_REQUIRED(VERSION 3.0)\n\nPROJECT(";

pub const LIB_NAME_OPEN: &'static str = ")\n\nSET(LIB_NAME ";

pub const ROOT_OPEN: &'static str = ")\n\nSET(PROJECT_ROOT_PATH \"";

pub const ROOT_CLOSE: &'static str = "\")\n\n";

pub const SOURCES: &'static str = "FILE(GLOB_RECURSE HEADER_LIST \"${PROJECT_ROOT_PATH}/include/*.h*\")\nFILE(GLOB_RECURSE SOURCE_LIST \"${PROJECT_ROOT_PATH}/source/*.c*\")\n\nSOURCE_GROUP(${LIB_NAME} FILES ${HEADER_LIST})\nSOURCE_GROUP(${LIB_NAME} FILES ${SOURCE_LIST})\n\nSET(CMAKE_CXX_STANDARD 17)\nSET(CMAKE_CXX_STANDARD_REQUIRED ON)\nSET(CMAKE_CXX_EXTENSIONS OFF)\n";

pub const STATIC_TARGET: &'static str = "ADD_LIBRARY(${LIB_NAME} STATIC ${HEADER_LIST} ${SOURCE_LIST})\n\n";

pub const SHARED_TARGET: &'static str = "ADD_LIBRARY(${LIB_NAME} SHARED ${HEADER_LIST} ${SOURCE_LIST})\n\n";

pub const EXECUTABLE_TARGET: &'static str = "ADD_EXECUTABLE(${LIB_NAME} ${HEADER_LIST} ${SOURCE_LIST})\n\n";

pub const DEFINITION_OPEN: &'static str = "TARGET_COMPILE_DEFINITIONS(${LIB_NAME} PRIVATE \"";

pub const LINK_DIRECTORY_OPEN: &'static str = "TARGET_LINK_DIRECTORIES(${LIB_NAME} PRIVATE \"";

pub const INCLUDE_DIRECTORY_OPEN: &'static str = "TARGET_INCLUDE_DIRECTORIES(${LIB_NAME} PRIVATE \"";

pub const LINK_LIBRARY_OPEN: &'static str = "TARGET_LINK_LIBRARIES(${LIB_NAME} PRIVATE \"";

pub const DIRECTIVE_CLOSE: &'static str = "\")\n";

pub const BLANK: &'static str = "\n";

pub const EQUALS: &'static str = "=";

pub const INSTALL_RULES: &'static str = "\nINSTALL(DIRECTORY \"${PROJECT_ROOT_PATH}/include/\" DESTINATION include)\nINSTALL(TARGETS ${LIB_NAME} RUNTIME DESTINATION bin LIBRARY DESTINATION lib\tARCHIVE DESTINATION lib)";

/// The target declaration for a link kind.
pub open spec fn target_line(kind: LinkType) -> Seq<char> {
    match kind {
        LinkType::Static => STATIC_TARGET@,
        LinkType::Dynamic => SHARED_TARGET@,
        LinkType::Executables => EXECUTABLE_TARGET@,
    }
}

/// One directive `open` + item + `")` per item, each on its own line, in order.
pub open spec fn directive_block(open: Seq<char>, items: Seq<Seq<char>>) -> Seq<char>
    decreases items.len(),
{
    if items.len() == 0 {
        Seq::empty()
    } else {
        directive_block(open, items.drop_last()) + open + items.last() + DIRECTIVE_CLOSE@
    }
}

/// One compile-definition directive `name=value` per pair, in order.
pub open spec fn definition_block(defs: Seq<(Seq<char>, Seq<char>)>) -> Seq<char>
    decreases defs.len(),
{
    if defs.len() == 0 {
        Seq::empty()
    } else {
        definition_block(defs.drop_last()) + DEFINITION_OPEN@ + defs.last().0 + EQUALS@
            + defs.last().1 + DIRECTIVE_CLOSE@
    }
}

/// The whole description generated for a configuration.
pub open spec fn descriptor_text(v: ConfigView) -> Seq<char> {
    OPENING@ + v.name + LIB_NAME_OPEN@ + v.name + ROOT_OPEN@ + v.root + ROOT_CLOSE@ + SOURCES@
        + target_line(v.kind) + definition_block(v.defines) + BLANK@ + directive_block(
        LINK_DIRECTORY_OPEN@,
        v.link_paths,
    ) + BLANK@ + directive_block(INCLUDE_DIRECTORY_OPEN@, v.include_paths) + BLANK@
        + directive_block(LINK_LIBRARY_OPEN@, v.libs) + INSTALL_RULES@
}

/// The views of a sequence of string pairs.
pub open spec fn pair_views(v: Seq<(String, String)>) -> Seq<(Seq<char>, Seq<char>)> {
    v.map_values(|p: (String, String)| (p.0@, p.1@))
}

/// The target declaration for `kind`.
pub fn target_declaration(kind: LinkType) -> (r: &'static str)
    ensures
        r@ == target_line(kind),
{
    match kind {
        LinkType::Static => STATIC_TARGET,
        LinkType::Dynamic => SHARED_TARGET,
        LinkType::Executables => EXECUTABLE_TARGET,
    }
}

/// The directives `open` + item + `")`, one line per item.
pub fn directive_lines(open: &str, items: &Vec<String>) -> (r: String)
    ensures
        r@ == directive_block(open@, views(items@)),
{
    let mut r = String::new();
    let mut i: usize = 0;
    while i < items.len()
        invariant
            i <= items.len(),
            r@ == directive_block(open@, views(items@).take(i as int)),
        decreases items.len() - i,
    {
        let ghost before = views(items@).take(i as int);
        r.append(open);
        r.append(items[i].as_str());
        r.append(DIRECTIVE_CLOSE);
        assert(views(items@).take(i + 1).drop_last() =~= before);
        i = i + 1;
    }
    assert(views(items@).take(i as int) =~= views(items@));
    r
}

/// The compile-definition directives, one line per pair.
pub fn definition_lines(defs: &Vec<(String, String)>) -> (r: String)
    ensures
        r@ == definition_block(pair_views(defs@)),
{
    let mut r = String::new();
    let mut i: usize = 0;
    while i < defs.len()
        invariant
            i <= defs.len(),
            r@ == definition_block(pair_views(defs@).take(i as int)),
        decreases defs.len() - i,
    {
        let ghost before = pair_views(defs@).take(i as int);
        let pair = &defs[i];
        r.append(DEFINITION_OPEN);
        r.append(pair.0.as_str());
        r.append(EQUALS);
        r.append(pair.1.as_str());
        r.append(DIRECTIVE_CLOSE);
        assert(pair_views(defs@).take(i + 1).drop_last() =~= before);
        i = i + 1;
    }
    assert(pair_views(defs@).take(i as int) =~= pair_views(defs@));
    r
}

} // verus!
