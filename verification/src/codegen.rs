//! The template catalog: one content template per generated artifact, each a
//! pure function of the derived symbol spellings. The spec function beside
//! each renderer states the exact character sequence that is produced.

use vstd::prelude::*;
use vstd::string::*;

use crate::symbols::{class_title_seq, to_upper, upper_char_exec, upper_seq, valid_root};

verus! {

/// Derives the class-title spelling: the first character upper-cased, the
/// rest of the identifier unchanged.
pub fn get_classname_uppercase(classname: &str) -> (r: String)
    requires
        classname@.len() > 0,
    ensures
        r@ == class_title_seq(classname@),
{
    let n = classname.unicode_len();
    let mut out = String::new();
    let c0 = classname.get_char(0);
    out.push(upper_char_exec(c0));
    proof {
        assert(out@ =~= class_title_seq(classname@).take(1));
    }
    let mut i: usize = 1;
    while i < n
        invariant
            n == classname@.len(),
            1 <= i <= n,
            out@ == class_title_seq(classname@).take(i as int),
        decreases n - i,
    {
        out.push(classname.get_char(i));
        proof {
            assert(out@ =~= class_title_seq(classname@).take(i + 1));
        }
        i = i + 1;
    }
    proof {
        assert(out@ =~= class_title_seq(classname@));
    }
    out
}

/// Content of the registration header, as a sequence of characters.
pub open spec fn register_h_seq(c: Seq<char>) -> Seq<char> {
    "\n#ifndef "@ + upper_seq(c) + "_REGISTER_TYPES_H\n#define "@ + upper_seq(c) + "_REGISTER_TYPES_H\n\n#include <godot_cpp/core/class_db.hpp>\n\nusing namespace godot;\n\n// Note: It is not recommended to rename that function, except you know what you are doing\nvoid initialize_"@ + c + "_module(ModuleInitializationLevel p_level);\n// Note: It is not recommended to rename that function, except you know what you are doing\nvoid uninitialize_"@ + c + "_module(ModuleInitializationLevel p_level);\n\n#endif // "@ + upper_seq(c) + "_REGISTER_TYPES_H"@
}

/// Renders the registration header for the given root identifier.
pub fn generate_register_h(classname: &str) -> (r: String)
    requires
        valid_root(classname@),
    ensures
        r@ == register_h_seq(classname@),
{
    let upper = to_upper(classname);
    let mut s = String::from_str("\n#ifndef ");
    s.append(upper.as_str());
    s.append("_REGISTER_TYPES_H\n#define ");
    s.append(upper.as_str());
    s.append("_REGISTER_TYPES_H\n\n#include <godot_cpp/core/class_db.hpp>\n\nusing namespace godot;\n\n// Note: It is not recommended to rename that function, except you know what you are doing\nvoid initialize_");
    s.append(classname);
    s.append("_module(ModuleInitializationLevel p_level);\n// Note: It is not recommended to rename that function, except you know what you are doing\nvoid uninitialize_");
    s.append(classname);
    s.append("_module(ModuleInitializationLevel p_level);\n\n#endif // ");
    s.append(upper.as_str());
    s.append("_REGISTER_TYPES_H");
    proof {
        assert(s@ =~= register_h_seq(classname@));
    }
    s
}

/// Content of the registration source, as a sequence of characters.
pub open spec fn register_cpp_seq(c: Seq<char>) -> Seq<char> {
    "\n#include \"register_types.h\"\n\n#include <gdextension_interface.h>\n\n#include <godot_cpp/core/class_db.hpp>\n#include <godot_cpp/core/defs.hpp>\n#include <godot_cpp/godot.hpp>\n\n#include \""@ + c + ".h\"\n//#include \"tests.h\"\n\nusing namespace godot;\n\n// Note: It is not recommended to rename that function, except you know what you are doing\nvoid initialize_"@ + c + "_module(ModuleInitializationLevel p_level) {\n    if (p_level != MODULE_INITIALIZATION_LEVEL_SCENE) {\n        return;\n    }\n\n    ClassDB::register_class<"@ + class_title_seq(c) + ">();\n}\n\n// Note: It is not recommended to rename that function, except you know what you are doing\nvoid uninitialize_"@ + c + "_module(ModuleInitializationLevel p_level) {\n    if (p_level != MODULE_INITIALIZATION_LEVEL_SCENE) {\n        return;\n    }\n}\n\nextern \"C\" {\n// Initialization.\n// Note: It is not recommended to rename that function, except you know what you are doing\nGDExtensionBool GDE_EXPORT "@ + c + "_library_init(const GDExtensionInterface *p_interface, GDExtensionClassLibraryPtr p_library, GDExtensionInitialization *r_initialization) {\n    godot::GDExtensionBinding::InitObject init_obj(p_interface, p_library, r_initialization);\n\n    init_obj.register_initializer(initialize_"@ + c + "_module);\n    init_obj.register_terminator(uninitialize_"@ + c + "_module);\n    init_obj.set_minimum_library_initialization_level(MODULE_INITIALIZATION_LEVEL_SCENE);\n\n    return init_obj.init();\n}\n}\n\n    "@
}

/// Renders the registration source for the given root identifier.
pub fn generate_register_cpp(classname: &str) -> (r: String)
    requires
        valid_root(classname@),
    ensures
        r@ == register_cpp_seq(classname@),
{
    let title = get_classname_uppercase(classname);
    let mut s = String::from_str("\n#include \"register_types.h\"\n\n#include <gdextension_interface.h>\n\n#include <godot_cpp/core/class_db.hpp>\n#include <godot_cpp/core/defs.hpp>\n#include <godot_cpp/godot.hpp>\n\n#include \"");
    s.append(classname);
    s.append(".h\"\n//#include \"tests.h\"\n\nusing namespace godot;\n\n// Note: It is not recommended to rename that function, except you know what you are doing\nvoid initialize_");
    s.append(classname);
    s.append("_module(ModuleInitializationLevel p_level) {\n    if (p_level != MODULE_INITIALIZATION_LEVEL_SCENE) {\n        return;\n    }\n\n    ClassDB::register_class<");
    s.append(title.as_str());
    s.append(">();\n}\n\n// Note: It is not recommended to rename that function, except you know what you are doing\nvoid uninitialize_");
    s.append(classname);
    s.append("_module(ModuleInitializationLevel p_level) {\n    if (p_level != MODULE_INITIALIZATION_LEVEL_SCENE) {\n        return;\n    }\n}\n\nextern \"C\" {\n// Initialization.\n// Note: It is not recommended to rename that function, except you know what you are doing\nGDExtensionBool GDE_EXPORT ");
    s.append(classname);
    s.append("_library_init(const GDExtensionInterface *p_interface, GDExtensionClassLibraryPtr p_library, GDExtensionInitialization *r_initialization) {\n    godot::GDExtensionBinding::InitObject init_obj(p_interface, p_library, r_initialization);\n\n    init_obj.register_initializer(initialize_");
    s.append(classname);
    s.append("_module);\n    init_obj.register_terminator(uninitialize_");
    s.append(classname);
    s.append("_module);\n    init_obj.set_minimum_library_initialization_level(MODULE_INITIALIZATION_LEVEL_SCENE);\n\n    return init_obj.init();\n}\n}\n\n    ");
    proof {
        assert(s@ =~= register_cpp_seq(classname@));
    }
    s
}

/// Content of the class source, as a sequence of characters.
pub open spec fn class_cpp_seq(c: Seq<char>) -> Seq<char> {
    "\n#include \""@ + c + ".h\"\n\n#include <godot_cpp/core/class_db.hpp>\n\n#include <godot_cpp/classes/global_constants.hpp>\n#include <godot_cpp/variant/utility_functions.hpp>\n\nusing namespace godot;\n"@ + class_title_seq(c) + "::"@ + class_title_seq(c) + "() {\n}\n"@ + class_title_seq(c) + "::~"@ + class_title_seq(c) + "() {\n}\nvoid "@ + class_title_seq(c) + "::exampleFunction(int number) {\n    UtilityFunctions::print(\"Your number was: \", number);\n}\n\nvoid "@ + class_title_seq(c) + "::_bind_methods() {\n    ClassDB::bind_method(D_METHOD(\"exampleFunction\", \"number\"), &"@ + class_title_seq(c) + "::exampleFunction);\n}"@
}

/// Renders the class source for the given root identifier.
pub fn generate_class_cpp(classname: &str) -> (r: String)
    requires
        valid_root(classname@),
    ensures
        r@ == class_cpp_seq(classname@),
{
    let title = get_classname_uppercase(classname);
    let mut s = String::from_str("\n#include \"");
    s.append(classname);
    s.append(".h\"\n\n#include <godot_cpp/core/class_db.hpp>\n\n#include <godot_cpp/classes/global_constants.hpp>\n#include <godot_cpp/variant/utility_functions.hpp>\n\nusing namespace godot;\n");
    s.append(title.as_str());
    s.append("::");
    s.append(title.as_str());
    s.append("() {\n}\n");
    s.append(title.as_str());
    s.append("::~");
    s.append(title.as_str());
    s.append("() {\n}\nvoid ");
    s.append(title.as_str());
    s.append("::exampleFunction(int number) {\n    UtilityFunctions::print(\"Your number was: \", number);\n}\n\nvoid ");
    s.append(title.as_str());
    s.append("::_bind_methods() {\n    ClassDB::bind_method(D_METHOD(\"exampleFunction\", \"number\"), &");
    s.append(title.as_str());
    s.append("::exampleFunction);\n}");
    proof {
        assert(s@ =~= class_cpp_seq(classname@));
    }
    s
}

/// Content of the class header, as a sequence of characters.
pub open spec fn class_h_seq(c: Seq<char>) -> Seq<char> {
    "\n#ifndef "@ + upper_seq(c) + "_CLASS_H\n#define "@ + upper_seq(c) + "_CLASS_H\n\n// We don't need windows.h in this example plugin but many others do, and it can\n// lead to annoying situations due to the ton of macros it defines.\n// So we include it and make sure CI warns us if we use something that conflicts\n// with a Windows define.\n#ifdef WIN32\n#include <windows.h>\n#endif\n\n#include <godot_cpp/classes/global_constants.hpp>\n#include <godot_cpp/variant/utility_functions.hpp>\n#include <godot_cpp/classes/ref_counted.hpp>\n\n#include <godot_cpp/core/binder_common.hpp>\n\nusing namespace godot;\n\nclass "@ + class_title_seq(c) + " : public RefCounted {\n    GDCLASS("@ + class_title_seq(c) + ", RefCounted);\n\nprivate:\n\nprotected:\n    static void _bind_methods();\n\npublic:\n    "@ + class_title_seq(c) + "();\n    ~"@ + class_title_seq(c) + "();\n\n    void exampleFunction(int number);\n};\n#endif // "@ + upper_seq(c) + "_CLASS_H\n"@
}

/// Renders the class header for the given root identifier.
pub fn generate_class_h(classname: &str) -> (r: String)
    requires
        valid_root(classname@),
    ensures
        r@ == class_h_seq(classname@),
{
    let upper = to_upper(classname);
    let title = get_classname_uppercase(classname);
    let mut s = String::from_str("\n#ifndef ");
    s.append(upper.as_str());
    s.append("_CLASS_H\n#define ");
    s.append(upper.as_str());
    s.append("_CLASS_H\n\n// We don't need windows.h in this example plugin but many others do, and it can\n// lead to annoying situations due to the ton of macros it defines.\n// So we include it and make sure CI warns us if we use something that conflicts\n// with a Windows define.\n#ifdef WIN32\n#include <windows.h>\n#endif\n\n#include <godot_cpp/classes/global_constants.hpp>\n#include <godot_cpp/variant/utility_functions.hpp>\n#include <godot_cpp/classes/ref_counted.hpp>\n\n#include <godot_cpp/core/binder_common.hpp>\n\nusing namespace godot;\n\nclass ");
    s.append(title.as_str());
    s.append(" : public RefCounted {\n    GDCLASS(");
    s.append(title.as_str());
    s.append(", RefCounted);\n\nprivate:\n\nprotected:\n    static void _bind_methods();\n\npublic:\n    ");
    s.append(title.as_str());
    s.append("();\n    ~");
    s.append(title.as_str());
    s.append("();\n\n    void exampleFunction(int number);\n};\n#endif // ");
    s.append(upper.as_str());
    s.append("_CLASS_H\n");
    proof {
        assert(s@ =~= class_h_seq(classname@));
    }
    s
}

/// Content of the SConstruct build descriptor, as a sequence of characters.
pub open spec fn sconstruct_seq(c: Seq<char>) -> Seq<char> {
    "\n# See: https://github.com/godotengine/godot-cpp/blob/master/test/SConstruct\n\n#!/usr/bin/env python\nimport os\nimport sys\n\nenv = SConscript(\"godot-cpp/SConstruct\")\n\n# For the reference:\n# - CCFLAGS are compilation flags shared between C and C++\n# - CFLAGS are for C-specific compilation flags\n# - CXXFLAGS are for C++-specific compilation flags\n# - CPPFLAGS are for pre-processor flags\n# - CPPDEFINES are for pre-processor defines\n# - LINKFLAGS are for linking flags\n\n# tweak this if you want to use different folders, or more folders, to store your source code in.\nenv.Append(CPPPATH=[\"src/\"])\nsources = Glob(\"src/*.cpp\")\n\nif env[\"platform\"] == \"macos\":\n    library = env.SharedLibrary(\n        \"godot/bin/libgd"@ + c + ".{}.{}.framework/libgd"@ + c + ".{}.{}\".format(\n            env[\"platform\"], env[\"target\"], env[\"platform\"], env[\"target\"]\n        ),\n        source=sources,\n    )\nelse:\n    library = env.SharedLibrary(\n        \"godot/bin/libgd"@ + c + "{}{}\".format(env[\"suffix\"], env[\"SHLIBSUFFIX\"]),\n        source=sources,\n    )\n\nDefault(library)\n    "@
}

/// Renders the SConstruct build descriptor for the given root identifier.
pub fn generate_sconstruct(classname: &str) -> (r: String)
    requires
        valid_root(classname@),
    ensures
        r@ == sconstruct_seq(classname@),
{
    let mut s = String::from_str("\n# See: https://github.com/godotengine/godot-cpp/blob/master/test/SConstruct\n\n#!/usr/bin/env python\nimport os\nimport sys\n\nenv = SConscript(\"godot-cpp/SConstruct\")\n\n# For the reference:\n# - CCFLAGS are compilation flags shared between C and C++\n# - CFLAGS are for C-specific compilation flags\n# - CXXFLAGS are for C++-specific compilation flags\n# - CPPFLAGS are for pre-processor flags\n# - CPPDEFINES are for pre-processor defines\n# - LINKFLAGS are for linking flags\n\n# tweak this if you want to use different folders, or more folders, to store your source code in.\nenv.Append(CPPPATH=[\"src/\"])\nsources = Glob(\"src/*.cpp\")\n\nif env[\"platform\"] == \"macos\":\n    library = env.SharedLibrary(\n        \"godot/bin/libgd");
    s.append(classname);
    s.append(".{}.{}.framework/libgd");
    s.append(classname);
    s.append(".{}.{}\".format(\n            env[\"platform\"], env[\"target\"], env[\"platform\"], env[\"target\"]\n        ),\n        source=sources,\n    )\nelse:\n    library = env.SharedLibrary(\n        \"godot/bin/libgd");
    s.append(classname);
    s.append("{}{}\".format(env[\"suffix\"], env[\"SHLIBSUFFIX\"]),\n        source=sources,\n    )\n\nDefault(library)\n    ");
    proof {
        assert(s@ =~= sconstruct_seq(classname@));
    }
    s
}

/// Content of the CMakeLists build descriptor, as a sequence of characters.
pub open spec fn cmakelists_seq(c: Seq<char>) -> Seq<char> {
    "\n# See: https://github.com/godotengine/godot-cpp/blob/master/test/CMakeLists.txt\n\nproject("@ + c + ")\ncmake_minimum_required(VERSION 3.6)\n\nset(GODOT_GDEXTENSION_DIR ../gdextension/ CACHE STRING \"Path to GDExtension interface header directory\")\nset(CPP_BINDINGS_PATH ../ CACHE STRING \"Path to C++ bindings\")\n\nif(CMAKE_SYSTEM_NAME STREQUAL \"Linux\")\n    set(TARGET_PATH x11)\nelseif(CMAKE_SYSTEM_NAME STREQUAL \"Windows\")\n    set(TARGET_PATH win64)\nelseif(CMAKE_SYSTEM_NAME STREQUAL \"Darwin\")\n    set(TARGET_PATH macos)\nelse()\n    message(FATAL_ERROR \"Not implemented support for ${CMAKE_SYSTEM_NAME}\")\nendif()\n\n# Change the output directory to the bin directory\nset(BUILD_PATH ${CMAKE_SOURCE_DIR}/bin/${TARGET_PATH})\nset(CMAKE_ARCHIVE_OUTPUT_DIRECTORY \"${BUILD_PATH}\")\nset(CMAKE_LIBRARY_OUTPUT_DIRECTORY \"${BUILD_PATH}\")\nset(CMAKE_RUNTIME_OUTPUT_DIRECTORY \"${BUILD_PATH}\")\nSET(CMAKE_RUNTIME_OUTPUT_DIRECTORY_DEBUG \"${BUILD_PATH}\")\nSET(CMAKE_RUNTIME_OUTPUT_DIRECTORY_RELEASE \"${BUILD_PATH}\")\nSET(CMAKE_LIBRARY_OUTPUT_DIRECTORY_DEBUG \"${BUILD_PATH}\")\nSET(CMAKE_LIBRARY_OUTPUT_DIRECTORY_RELEASE \"${BUILD_PATH}\")\nSET(CMAKE_ARCHIVE_OUTPUT_DIRECTORY_DEBUG \"${BUILD_PATH}\")\nSET(CMAKE_ARCHIVE_OUTPUT_DIRECTORY_RELEASE \"${BUILD_PATH}\")\n\n# Set the c++ standard to c++17\nset(CMAKE_CXX_STANDARD 17)\nset(CMAKE_CXX_STANDARD_REQUIRED ON)\nset(CMAKE_CXX_EXTENSIONS OFF)\n\nset(GODOT_COMPILE_FLAGS )\nset(GODOT_LINKER_FLAGS )\n\nif (\"${CMAKE_CXX_COMPILER_ID}\" STREQUAL \"MSVC\")\n    # using Visual Studio C++\n    set(GODOT_COMPILE_FLAGS \"${GODOT_COMPILE_FLAGS} /EHsc /WX\") # /GF /MP\n    set(GODOT_COMPILE_FLAGS \"${GODOT_COMPILE_FLAGS} /DTYPED_METHOD_BIND\")\n\n    if(CMAKE_BUILD_TYPE MATCHES Debug)\n        set(GODOT_COMPILE_FLAGS \"${GODOT_COMPILE_FLAGS} /MDd\") # /Od /RTC1 /Zi\n    else()\n        set(GODOT_COMPILE_FLAGS \"${GODOT_COMPILE_FLAGS} /MD /O2\") # /Oy /GL /Gy\n        STRING(REGEX REPLACE \"/RTC(su|[1su])\" \"\" CMAKE_CXX_FLAGS \"${CMAKE_CXX_FLAGS}\")\n        string(REPLACE \"/RTC1\" \"\" CMAKE_CXX_FLAGS_DEBUG ${CMAKE_CXX_FLAGS_DEBUG})\n    endif(CMAKE_BUILD_TYPE MATCHES Debug)\n\n    # Disable conversion warning, truncation, unreferenced var, signed mismatch\n    set(GODOT_COMPILE_FLAGS \"${GODOT_COMPILE_FLAGS} /wd4244 /wd4305 /wd4101 /wd4018 /wd4267\")\n\n    add_definitions(-DNOMINMAX)\n\n    # Unkomment for warning level 4\n    #if(CMAKE_CXX_FLAGS MATCHES \"/W[0-4]\")\n    #\tstring(REGEX REPLACE \"/W[0-4]\" \"\" CMAKE_CXX_FLAGS \"${CMAKE_CXX_FLAGS}\")\n    #endif()\n\nelse()\n\n#elseif (\"${CMAKE_CXX_COMPILER_ID}\" STREQUAL \"Clang\")\n    # using Clang\n#elseif (\"${CMAKE_CXX_COMPILER_ID}\" STREQUAL \"GNU\")\n    # using GCC and maybe MinGW?\n\n    set(GODOT_LINKER_FLAGS \"-static-libgcc -static-libstdc++ -Wl,-R,\"$$ORIGIN\"\")\n\n    # Hmm.. maybe to strikt?\n    set(GODOT_COMPILE_FLAGS \"-fPIC -g -Wwrite-strings\")\n    set(GODOT_COMPILE_FLAGS \"${GODOT_COMPILE_FLAGS} -Wchar-subscripts -Wcomment -Wdisabled-optimization\")\n    set(GODOT_COMPILE_FLAGS \"${GODOT_COMPILE_FLAGS} -Wformat -Wformat=2 -Wformat-security -Wformat-y2k\")\n    set(GODOT_COMPILE_FLAGS \"${GODOT_COMPILE_FLAGS} -Wimport -Winit-self -Winline -Winvalid-pch -Werror\")\n    set(GODOT_COMPILE_FLAGS \"${GODOT_COMPILE_FLAGS} -Wmissing-braces -Wmissing-format-attribute\")\n    set(GODOT_COMPILE_FLAGS \"${GODOT_COMPILE_FLAGS} -Wmissing-include-dirs -Wmissing-noreturn -Wpacked -Wpointer-arith\")\n    set(GODOT_COMPILE_FLAGS \"${GODOT_COMPILE_FLAGS} -Wredundant-decls -Wreturn-type -Wsequence-point\")\n    set(GODOT_COMPILE_FLAGS \"${GODOT_COMPILE_FLAGS} -Wswitch -Wswitch-enum -Wtrigraphs\")\n    set(GODOT_COMPILE_FLAGS \"${GODOT_COMPILE_FLAGS} -Wuninitialized -Wunknown-pragmas -Wunreachable-code -Wunused-label\")\n    set(GODOT_COMPILE_FLAGS \"${GODOT_COMPILE_FLAGS} -Wunused-value -Wvariadic-macros -Wvolatile-register-var -Wno-error=attributes\")\n\n    # -Wshadow -Wextra -Wall -Weffc++ -Wfloat-equal -Wstack-protector -Wunused-parameter -Wsign-compare -Wunused-variable -Wcast-align\n    # -Wunused-function -Wstrict-aliasing -Wstrict-aliasing=2 -Wmissing-field-initializers\n\n    if(NOT CMAKE_SYSTEM_NAME STREQUAL \"Android\")\n        set(GODOT_COMPILE_FLAGS \"${GODOT_COMPILE_FLAGS} -Wno-ignored-attributes\")\n    endif()\n\n    if(CMAKE_BUILD_TYPE MATCHES Debug)\n        set(GODOT_COMPILE_FLAGS \"${GODOT_COMPILE_FLAGS} -fno-omit-frame-pointer -O0\")\n    else()\n        set(GODOT_COMPILE_FLAGS \"${GODOT_COMPILE_FLAGS} -O3\")\n    endif(CMAKE_BUILD_TYPE MATCHES Debug)\nendif()\n\n# Get Sources\nfile(GLOB_RECURSE SOURCES src/*.c**)\nfile(GLOB_RECURSE HEADERS include/*.h**)\n\n# Define our godot-cpp library\nadd_library(${PROJECT_NAME} SHARED ${SOURCES} ${HEADERS})\n\ntarget_include_directories(${PROJECT_NAME} SYSTEM\n    PRIVATE\n        ${CPP_BINDINGS_PATH}/include\n        ${CPP_BINDINGS_PATH}/gen/include\n        ${GODOT_GDEXTENSION_DIR}\n)\n\n# Create the correct name (godot.os.build_type.system_bits)\n# Synchronized with godot-cpp's CMakeLists.txt\n\nset(BITS 32)\nif(CMAKE_SIZEOF_VOID_P EQUAL 8)\n    set(BITS 64)\nendif(CMAKE_SIZEOF_VOID_P EQUAL 8)\n\nif(CMAKE_BUILD_TYPE MATCHES Debug)\n    set(GODOT_CPP_BUILD_TYPE Debug)\nelse()\n    set(GODOT_CPP_BUILD_TYPE Release)\nendif()\n\nstring(TOLOWER ${CMAKE_SYSTEM_NAME} SYSTEM_NAME)\nstring(TOLOWER ${GODOT_CPP_BUILD_TYPE} BUILD_TYPE)\n\nif(ANDROID)\n    # Added the android abi after system name\n    set(SYSTEM_NAME ${SYSTEM_NAME}.${ANDROID_ABI})\nendif()\n\nif(CMAKE_VERSION VERSION_GREATER \"3.13\")\n    target_link_directories(${PROJECT_NAME}\n        PRIVATE\n        ${CPP_BINDINGS_PATH}/bin/\n    )\n\n    target_link_libraries(${PROJECT_NAME}\n        godot-cpp.${SYSTEM_NAME}.${BUILD_TYPE}$<$<NOT:$<PLATFORM_ID:Android>>:.${BITS}>\n    )\nelse()\n    target_link_libraries(${PROJECT_NAME}\n            ${CPP_BINDINGS_PATH}/bin/libgodot-cpp.${SYSTEM_NAME}.${BUILD_TYPE}$<$<NOT:$<PLATFORM_ID:Android>>:.${BITS}>.a\n    )\nendif()\n\n# Add the compile flags\nset_property(TARGET ${PROJECT_NAME} APPEND_STRING PROPERTY COMPILE_FLAGS ${GODOT_COMPILE_FLAGS})\nset_property(TARGET ${PROJECT_NAME} APPEND_STRING PROPERTY LINK_FLAGS ${GODOT_LINKER_FLAGS})\n\nset_property(TARGET ${PROJECT_NAME} PROPERTY OUTPUT_NAME \""@ + c + "\")\n    "@
}

/// Renders the CMakeLists build descriptor for the given root identifier.
pub fn generate_cmakelists(classname: &str) -> (r: String)
    requires
        valid_root(classname@),
    ensures
        r@ == cmakelists_seq(classname@),
{
    let mut s = String::from_str("\n# See: https://github.com/godotengine/godot-cpp/blob/master/test/CMakeLists.txt\n\nproject(");
    s.append(classname);
    s.append(")\ncmake_minimum_required(VERSION 3.6)\n\nset(GODOT_GDEXTENSION_DIR ../gdextension/ CACHE STRING \"Path to GDExtension interface header directory\")\nset(CPP_BINDINGS_PATH ../ CACHE STRING \"Path to C++ bindings\")\n\nif(CMAKE_SYSTEM_NAME STREQUAL \"Linux\")\n    set(TARGET_PATH x11)\nelseif(CMAKE_SYSTEM_NAME STREQUAL \"Windows\")\n    set(TARGET_PATH win64)\nelseif(CMAKE_SYSTEM_NAME STREQUAL \"Darwin\")\n    set(TARGET_PATH macos)\nelse()\n    message(FATAL_ERROR \"Not implemented support for ${CMAKE_SYSTEM_NAME}\")\nendif()\n\n# Change the output directory to the bin directory\nset(BUILD_PATH ${CMAKE_SOURCE_DIR}/bin/${TARGET_PATH})\nset(CMAKE_ARCHIVE_OUTPUT_DIRECTORY \"${BUILD_PATH}\")\nset(CMAKE_LIBRARY_OUTPUT_DIRECTORY \"${BUILD_PATH}\")\nset(CMAKE_RUNTIME_OUTPUT_DIRECTORY \"${BUILD_PATH}\")\nSET(CMAKE_RUNTIME_OUTPUT_DIRECTORY_DEBUG \"${BUILD_PATH}\")\nSET(CMAKE_RUNTIME_OUTPUT_DIRECTORY_RELEASE \"${BUILD_PATH}\")\nSET(CMAKE_LIBRARY_OUTPUT_DIRECTORY_DEBUG \"${BUILD_PATH}\")\nSET(CMAKE_LIBRARY_OUTPUT_DIRECTORY_RELEASE \"${BUILD_PATH}\")\nSET(CMAKE_ARCHIVE_OUTPUT_DIRECTORY_DEBUG \"${BUILD_PATH}\")\nSET(CMAKE_ARCHIVE_OUTPUT_DIRECTORY_RELEASE \"${BUILD_PATH}\")\n\n# Set the c++ standard to c++17\nset(CMAKE_CXX_STANDARD 17)\nset(CMAKE_CXX_STANDARD_REQUIRED ON)\nset(CMAKE_CXX_EXTENSIONS OFF)\n\nset(GODOT_COMPILE_FLAGS )\nset(GODOT_LINKER_FLAGS )\n\nif (\"${CMAKE_CXX_COMPILER_ID}\" STREQUAL \"MSVC\")\n    # using Visual Studio C++\n    set(GODOT_COMPILE_FLAGS \"${GODOT_COMPILE_FLAGS} /EHsc /WX\") # /GF /MP\n    set(GODOT_COMPILE_FLAGS \"${GODOT_COMPILE_FLAGS} /DTYPED_METHOD_BIND\")\n\n    if(CMAKE_BUILD_TYPE MATCHES Debug)\n        set(GODOT_COMPILE_FLAGS \"${GODOT_COMPILE_FLAGS} /MDd\") # /Od /RTC1 /Zi\n    else()\n        set(GODOT_COMPILE_FLAGS \"${GODOT_COMPILE_FLAGS} /MD /O2\") # /Oy /GL /Gy\n        STRING(REGEX REPLACE \"/RTC(su|[1su])\" \"\" CMAKE_CXX_FLAGS \"${CMAKE_CXX_FLAGS}\")\n        string(REPLACE \"/RTC1\" \"\" CMAKE_CXX_FLAGS_DEBUG ${CMAKE_CXX_FLAGS_DEBUG})\n    endif(CMAKE_BUILD_TYPE MATCHES Debug)\n\n    # Disable conversion warning, truncation, unreferenced var, signed mismatch\n    set(GODOT_COMPILE_FLAGS \"${GODOT_COMPILE_FLAGS} /wd4244 /wd4305 /wd4101 /wd4018 /wd4267\")\n\n    add_definitions(-DNOMINMAX)\n\n    # Unkomment for warning level 4\n    #if(CMAKE_CXX_FLAGS MATCHES \"/W[0-4]\")\n    #\tstring(REGEX REPLACE \"/W[0-4]\" \"\" CMAKE_CXX_FLAGS \"${CMAKE_CXX_FLAGS}\")\n    #endif()\n\nelse()\n\n#elseif (\"${CMAKE_CXX_COMPILER_ID}\" STREQUAL \"Clang\")\n    # using Clang\n#elseif (\"${CMAKE_CXX_COMPILER_ID}\" STREQUAL \"GNU\")\n    # using GCC and maybe MinGW?\n\n    set(GODOT_LINKER_FLAGS \"-static-libgcc -static-libstdc++ -Wl,-R,\"$$ORIGIN\"\")\n\n    # Hmm.. maybe to strikt?\n    set(GODOT_COMPILE_FLAGS \"-fPIC -g -Wwrite-strings\")\n    set(GODOT_COMPILE_FLAGS \"${GODOT_COMPILE_FLAGS} -Wchar-subscripts -Wcomment -Wdisabled-optimization\")\n    set(GODOT_COMPILE_FLAGS \"${GODOT_COMPILE_FLAGS} -Wformat -Wformat=2 -Wformat-security -Wformat-y2k\")\n    set(GODOT_COMPILE_FLAGS \"${GODOT_COMPILE_FLAGS} -Wimport -Winit-self -Winline -Winvalid-pch -Werror\")\n    set(GODOT_COMPILE_FLAGS \"${GODOT_COMPILE_FLAGS} -Wmissing-braces -Wmissing-format-attribute\")\n    set(GODOT_COMPILE_FLAGS \"${GODOT_COMPILE_FLAGS} -Wmissing-include-dirs -Wmissing-noreturn -Wpacked -Wpointer-arith\")\n    set(GODOT_COMPILE_FLAGS \"${GODOT_COMPILE_FLAGS} -Wredundant-decls -Wreturn-type -Wsequence-point\")\n    set(GODOT_COMPILE_FLAGS \"${GODOT_COMPILE_FLAGS} -Wswitch -Wswitch-enum -Wtrigraphs\")\n    set(GODOT_COMPILE_FLAGS \"${GODOT_COMPILE_FLAGS} -Wuninitialized -Wunknown-pragmas -Wunreachable-code -Wunused-label\")\n    set(GODOT_COMPILE_FLAGS \"${GODOT_COMPILE_FLAGS} -Wunused-value -Wvariadic-macros -Wvolatile-register-var -Wno-error=attributes\")\n\n    # -Wshadow -Wextra -Wall -Weffc++ -Wfloat-equal -Wstack-protector -Wunused-parameter -Wsign-compare -Wunused-variable -Wcast-align\n    # -Wunused-function -Wstrict-aliasing -Wstrict-aliasing=2 -Wmissing-field-initializers\n\n    if(NOT CMAKE_SYSTEM_NAME STREQUAL \"Android\")\n        set(GODOT_COMPILE_FLAGS \"${GODOT_COMPILE_FLAGS} -Wno-ignored-attributes\")\n    endif()\n\n    if(CMAKE_BUILD_TYPE MATCHES Debug)\n        set(GODOT_COMPILE_FLAGS \"${GODOT_COMPILE_FLAGS} -fno-omit-frame-pointer -O0\")\n    else()\n        set(GODOT_COMPILE_FLAGS \"${GODOT_COMPILE_FLAGS} -O3\")\n    endif(CMAKE_BUILD_TYPE MATCHES Debug)\nendif()\n\n# Get Sources\nfile(GLOB_RECURSE SOURCES src/*.c**)\nfile(GLOB_RECURSE HEADERS include/*.h**)\n\n# Define our godot-cpp library\nadd_library(${PROJECT_NAME} SHARED ${SOURCES} ${HEADERS})\n\ntarget_include_directories(${PROJECT_NAME} SYSTEM\n    PRIVATE\n        ${CPP_BINDINGS_PATH}/include\n        ${CPP_BINDINGS_PATH}/gen/include\n        ${GODOT_GDEXTENSION_DIR}\n)\n\n# Create the correct name (godot.os.build_type.system_bits)\n# Synchronized with godot-cpp's CMakeLists.txt\n\nset(BITS 32)\nif(CMAKE_SIZEOF_VOID_P EQUAL 8)\n    set(BITS 64)\nendif(CMAKE_SIZEOF_VOID_P EQUAL 8)\n\nif(CMAKE_BUILD_TYPE MATCHES Debug)\n    set(GODOT_CPP_BUILD_TYPE Debug)\nelse()\n    set(GODOT_CPP_BUILD_TYPE Release)\nendif()\n\nstring(TOLOWER ${CMAKE_SYSTEM_NAME} SYSTEM_NAME)\nstring(TOLOWER ${GODOT_CPP_BUILD_TYPE} BUILD_TYPE)\n\nif(ANDROID)\n    # Added the android abi after system name\n    set(SYSTEM_NAME ${SYSTEM_NAME}.${ANDROID_ABI})\nendif()\n\nif(CMAKE_VERSION VERSION_GREATER \"3.13\")\n    target_link_directories(${PROJECT_NAME}\n        PRIVATE\n        ${CPP_BINDINGS_PATH}/bin/\n    )\n\n    target_link_libraries(${PROJECT_NAME}\n        godot-cpp.${SYSTEM_NAME}.${BUILD_TYPE}$<$<NOT:$<PLATFORM_ID:Android>>:.${BITS}>\n    )\nelse()\n    target_link_libraries(${PROJECT_NAME}\n            ${CPP_BINDINGS_PATH}/bin/libgodot-cpp.${SYSTEM_NAME}.${BUILD_TYPE}$<$<NOT:$<PLATFORM_ID:Android>>:.${BITS}>.a\n    )\nendif()\n\n# Add the compile flags\nset_property(TARGET ${PROJECT_NAME} APPEND_STRING PROPERTY COMPILE_FLAGS ${GODOT_COMPILE_FLAGS})\nset_property(TARGET ${PROJECT_NAME} APPEND_STRING PROPERTY LINK_FLAGS ${GODOT_LINKER_FLAGS})\n\nset_property(TARGET ${PROJECT_NAME} PROPERTY OUTPUT_NAME \"");
    s.append(classname);
    s.append("\")\n    ");
    proof {
        assert(s@ =~= cmakelists_seq(classname@));
    }
    s
}

/// Content of the extension descriptor, as a sequence of characters.
pub open spec fn gdextension_seq(c: Seq<char>) -> Seq<char> {
    "\n[configuration]\nentry_symbol = \""@ + c + "_library_init\"\n\n[libraries]\n\nmacos.debug = \"res://bin/libgd"@ + c + ".macos.template_debug.framework\"\nmacos.release = \"res://bin/libgd"@ + c + ".macos.template_release.framework\"\nwindows.debug.x86_32 = \"res://bin/libgd"@ + c + ".windows.template_debug.x86_32.dll\"\nwindows.release.x86_32 = \"res://bin/libgd"@ + c + ".windows.template_release.x86_32.dll\"\nwindows.debug.x86_64 = \"res://bin/libgd"@ + c + ".windows.template_debug.x86_64.dll\"\nwindows.release.x86_64 = \"res://bin/libgd"@ + c + ".windows.template_release.x86_64.dll\"\nlinux.debug.x86_64 = \"res://bin/libgd"@ + c + ".linux.template_debug.x86_64.so\"\nlinux.release.x86_64 = \"res://bin/libgd"@ + c + ".linux.template_release.x86_64.so\"\nlinux.debug.arm64 = \"res://bin/libgd"@ + c + ".linux.template_debug.arm64.so\"\nlinux.release.arm64 = \"res://bin/libgd"@ + c + ".linux.template_release.arm64.so\"\nlinux.debug.rv64 = \"res://bin/libgd"@ + c + ".linux.template_debug.rv64.so\"\nlinux.release.rv64 = \"res://bin/libgd"@ + c + ".linux.template_release.rv64.so\"\nandroid.debug.x86_64 = \"res://bin/libgd"@ + c + ".android.template_debug.x86_64.so\"\nandroid.release.x86_64 = \"res://bin/libgd"@ + c + ".android.template_release.x86_64.so\"\nandroid.debug.arm64 = \"res://bin/libgd"@ + c + ".android.template_debug.arm64.so\"\nandroid.release.arm64 = \"res://bin/libgd"@ + c + ".android.template_release.arm64.so\"\n    "@
}

/// Renders the extension descriptor for the given root identifier.
pub fn generate_gdextension(classname: &str) -> (r: String)
    requires
        valid_root(classname@),
    ensures
        r@ == gdextension_seq(classname@),
{
    let mut s = String::from_str("\n[configuration]\nentry_symbol = \"");
    s.append(classname);
    s.append("_library_init\"\n\n[libraries]\n\nmacos.debug = \"res://bin/libgd");
    s.append(classname);
    s.append(".macos.template_debug.framework\"\nmacos.release = \"res://bin/libgd");
    s.append(classname);
    s.append(".macos.template_release.framework\"\nwindows.debug.x86_32 = \"res://bin/libgd");
    s.append(classname);
    s.append(".windows.template_debug.x86_32.dll\"\nwindows.release.x86_32 = \"res://bin/libgd");
    s.append(classname);
    s.append(".windows.template_release.x86_32.dll\"\nwindows.debug.x86_64 = \"res://bin/libgd");
    s.append(classname);
    s.append(".windows.template_debug.x86_64.dll\"\nwindows.release.x86_64 = \"res://bin/libgd");
    s.append(classname);
    s.append(".windows.template_release.x86_64.dll\"\nlinux.debug.x86_64 = \"res://bin/libgd");
    s.append(classname);
    s.append(".linux.template_debug.x86_64.so\"\nlinux.release.x86_64 = \"res://bin/libgd");
    s.append(classname);
    s.append(".linux.template_release.x86_64.so\"\nlinux.debug.arm64 = \"res://bin/libgd");
    s.append(classname);
    s.append(".linux.template_debug.arm64.so\"\nlinux.release.arm64 = \"res://bin/libgd");
    s.append(classname);
    s.append(".linux.template_release.arm64.so\"\nlinux.debug.rv64 = \"res://bin/libgd");
    s.append(classname);
    s.append(".linux.template_debug.rv64.so\"\nlinux.release.rv64 = \"res://bin/libgd");
    s.append(classname);
    s.append(".linux.template_release.rv64.so\"\nandroid.debug.x86_64 = \"res://bin/libgd");
    s.append(classname);
    s.append(".android.template_debug.x86_64.so\"\nandroid.release.x86_64 = \"res://bin/libgd");
    s.append(classname);
    s.append(".android.template_release.x86_64.so\"\nandroid.debug.arm64 = \"res://bin/libgd");
    s.append(classname);
    s.append(".android.template_debug.arm64.so\"\nandroid.release.arm64 = \"res://bin/libgd");
    s.append(classname);
    s.append(".android.template_release.arm64.so\"\n    ");
    proof {
        assert(s@ =~= gdextension_seq(classname@));
    }
    s
}

/// Content of the extension descriptor list, as a sequence of characters.
pub open spec fn gdextension_list_seq(c: Seq<char>) -> Seq<char> {
    "\nres://"@ + c + ".gdextension\n    "@
}

/// Renders the extension descriptor list for the given root identifier.
pub fn generate_gdextension_list(classname: &str) -> (r: String)
    requires
        valid_root(classname@),
    ensures
        r@ == gdextension_list_seq(classname@),
{
    let mut s = String::from_str("\nres://");
    s.append(classname);
    s.append(".gdextension\n    ");
    proof {
        assert(s@ =~= gdextension_list_seq(classname@));
    }
    s
}

} // verus!
