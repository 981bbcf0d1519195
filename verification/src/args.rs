use vstd::prelude::*;
use vstd::string::StrSliceExecFns;
use vstd::string::StringExecFns;

use crate::config::{InternalConfig, JvmConfig, RuntimeConfig, ServiceConfig};
use crate::error::{Error, ErrorKind};

verus! {

/// The platform path-list separator between entries of a search-path list.
pub const PATH_LIST_SEPARATOR: &'static str = ":";

/// A raw user flag is well formed when it is a non-empty option beginning
/// with a dash and holding no interior NUL character, which the environment's
/// option strings cannot carry.
pub open spec fn valid_user_flag(s: Seq<char>) -> bool {
    s.len() > 0 && s[0] == '-' && (forall|i: int| 0 <= i < s.len() ==> s[i] != '\0')
}

/// Every flag of the list is well formed.
pub open spec fn valid_user_flags(fs: Seq<Seq<char>>) -> bool {
    forall|i: int| 0 <= i < fs.len() ==> valid_user_flag(#[trigger] fs[i])
}

/// Each entry of the deep view of a string list is the view of that entry.
proof fn lemma_deep_view_index(v: Vec<String>)
    ensures
        v.deep_view().len() == v@.len(),
        forall|i: int| 0 <= i < v@.len() ==> v.deep_view()[i] == (#[trigger] v@[i])@,
{
}

/// The error a malformed raw user flag is rejected with.
fn invalid_flag_error(param: &str) -> (r: Error)
    ensures
        r.0 matches ErrorKind::Msg(m) && m@ == "Invalid JVM argument: "@ + param@,
{
    Error(ErrorKind::Msg(String::from_str("Invalid JVM argument: ").concat(param)))
}

/// Checks one raw user flag; a well-formed flag is kept verbatim.
pub fn validate_and_convert(param: &str) -> (r: Result<String, Error>)
    ensures
        match r {
            Ok(s) => valid_user_flag(param@) && s@ == param@,
            Err(e) => !valid_user_flag(param@) && (e.0 matches ErrorKind::Msg(m) && m@
                == "Invalid JVM argument: "@ + param@),
        },
{
    let n = param.unicode_len();
    if n == 0 || param.get_char(0) != '-' {
        return Err(invalid_flag_error(param));
    }
    let mut i: usize = 0;
    while i < n
        invariant
            n == param@.len(),
            i <= n,
            forall|j: int| 0 <= j < i as int ==> param@[j] != '\0',
        decreases n - i,
    {
        if param.get_char(i) == '\0' {
            return Err(invalid_flag_error(param));
        }
        i += 1;
    }
    Ok(param.to_owned())
}

/// The rejection of a flag list names its first malformed flag.
pub open spec fn names_first_invalid_flag(e: Error, fs: Seq<Seq<char>>) -> bool {
    exists|i: int|
        0 <= i < fs.len() && !valid_user_flag(#[trigger] fs[i]) && (forall|j: int|
            0 <= j < i ==> valid_user_flag(#[trigger] fs[j])) && (e.0 matches ErrorKind::Msg(m)
            && m@ == "Invalid JVM argument: "@ + fs[i])
}

/// Validates each raw user flag and appends it in order; the first malformed
/// flag fails the whole addition and leaves the list untouched.
pub fn add_user_arguments(args: &mut Vec<String>, user_args: &Vec<String>) -> (r: Result<
    (),
    Error,
>)
    ensures
        match r {
            Ok(_) => valid_user_flags(user_args.deep_view()) && final(args).deep_view() == old(
                args,
            ).deep_view() + user_args.deep_view(),
            Err(e) => !valid_user_flags(user_args.deep_view()) && final(args).deep_view() == old(
                args,
            ).deep_view() && names_first_invalid_flag(e, user_args.deep_view()),
        },
{
    let mut converted: Vec<String> = Vec::new();
    let mut i: usize = 0;
    while i < user_args.len()
        invariant
            i <= user_args.len(),
            converted@.len() == i,
            forall|j: int| 0 <= j < i as int ==> (#[trigger] converted@[j])@ == user_args@[j]@,
            forall|j: int| 0 <= j < i as int ==> valid_user_flag((#[trigger] user_args@[j])@),
        decreases user_args.len() - i,
    {
        let param = &user_args[i];
        match validate_and_convert(param.as_str()) {
            Ok(option) => {
                converted.push(option);
            },
            Err(e) => {
                proof {
                    lemma_deep_view_index(*user_args);
                    assert(!valid_user_flag(user_args.deep_view()[i as int]));
                    assert(forall|j: int|
                        0 <= j < i as int ==> valid_user_flag(
                            #[trigger] user_args.deep_view()[j],
                        ));
                }
                return Err(e);
            },
        }
        i += 1;
    }
    proof {
        lemma_deep_view_index(*user_args);
        lemma_deep_view_index(*old(args));
        lemma_deep_view_index(converted);
    }
    let ghost pre = old(args).deep_view();
    let ghost mid = converted.deep_view();
    proof {
        assert(mid =~= user_args.deep_view());
    }
    args.append(&mut converted);
    proof {
        lemma_deep_view_index(*args);
        assert(args.deep_view() =~= pre + mid);
    }
    Ok(())
}

/// Joins path entries with the platform path-list separator, in order.
pub open spec fn join_paths_spec(ps: Seq<Seq<char>>) -> Seq<char>
    decreases ps.len(),
{
    if ps.len() == 0 {
        Seq::empty()
    } else if ps.len() == 1 {
        ps[0]
    } else {
        join_paths_spec(ps.drop_last()) + PATH_LIST_SEPARATOR@ + ps.last()
    }
}

/// Joins path entries with the platform path-list separator.
pub fn join_paths(parts: &Vec<String>) -> (r: String)
    ensures
        r@ == join_paths_spec(parts.deep_view()),
{
    let mut result = String::new();
    let mut i: usize = 0;
    while i < parts.len()
        invariant
            i <= parts.len(),
            result@ == join_paths_spec(parts.deep_view().take(i as int)),
        decreases parts.len() - i,
    {
        if i > 0 {
            result.append(PATH_LIST_SEPARATOR);
        }
        result.append(parts[i].as_str());
        proof {
            let dv = parts.deep_view();
            assert(dv.take(i as int + 1).drop_last() =~= dv.take(i as int));
            assert(dv.take(i as int + 1).last() == dv[i as int]);
            if i == 0 {
                assert(result@ =~= dv.take(1).last());
            } else {
                assert(result@ =~= join_paths_spec(dv.take(i as int)) + PATH_LIST_SEPARATOR@ + dv[i as int]);
            }
        }
        i += 1;
    }
    proof {
        assert(parts.deep_view().take(parts.len() as int) =~= parts.deep_view());
    }
    result
}

/// The flags the environment cannot run without: the native-library path when
/// the internal config supplies one, then the combined class path, then the
/// logging configuration file.
pub open spec fn required_flags_spec(
    runtime_config: RuntimeConfig,
    service_config: ServiceConfig,
    internal_config: InternalConfig,
) -> Seq<Seq<char>> {
    let class_path_flag = "-Djava.class.path="@ + internal_config.system_class_path@
        + PATH_LIST_SEPARATOR@ + service_config.service_class_path@;
    let log_flag = "-Dlog4j.configurationFile="@ + runtime_config.log_config_path@;
    match internal_config.system_lib_path {
        Some(lib) => seq!["-Djava.library.path="@ + lib@, class_path_flag, log_flag],
        None => seq![class_path_flag, log_flag],
    }
}

/// Appends the mandatory flags in their fixed order.
pub fn add_required_arguments(
    args: &mut Vec<String>,
    runtime_config: &RuntimeConfig,
    service_config: &ServiceConfig,
    internal_config: &InternalConfig,
)
    ensures
        final(args).deep_view() == old(args).deep_view() + required_flags_spec(
            *runtime_config,
            *service_config,
            *internal_config,
        ),
{
    let ghost pre = old(args).deep_view();
    if let Some(lib) = &internal_config.system_lib_path {
        args.push(String::from_str("-Djava.library.path=").concat(lib.as_str()));
    }
    let mut class_path_parts: Vec<String> = Vec::new();
    class_path_parts.push(internal_config.system_class_path.clone());
    class_path_parts.push(service_config.service_class_path.clone());
    let class_path = join_paths(&class_path_parts);
    proof {
        lemma_deep_view_index(class_path_parts);
        let dv = class_path_parts.deep_view();
        let sys = internal_config.system_class_path@;
        let svc = service_config.service_class_path@;
        assert(dv.len() == 2 && dv[0] == sys && dv[1] == svc);
        assert(dv.drop_last() =~= seq![sys]);
        assert(join_paths_spec(seq![sys]) == sys);
        assert(join_paths_spec(dv) == join_paths_spec(dv.drop_last()) + PATH_LIST_SEPARATOR@
            + dv.last());
        assert(class_path@ == sys + PATH_LIST_SEPARATOR@ + svc);
    }
    args.push(String::from_str("-Djava.class.path=").concat(class_path.as_str()));
    args.push(String::from_str("-Dlog4j.configurationFile=").concat(
        runtime_config.log_config_path.as_str(),
    ));
    proof {
        lemma_deep_view_index(*old(args));
        lemma_deep_view_index(*args);
        let rf = required_flags_spec(*runtime_config, *service_config, *internal_config);
        assert(args@.len() == old(args)@.len() + rf.len());
        assert forall|k: int| 0 <= k < args@.len() implies args.deep_view()[k] == (pre + rf)[k] by {
            if k < pre.len() {
                assert(args@[k] == old(args)@[k]);
            } else {
                assert(args.deep_view()[k] == args@[k]@);
            }
        }
        assert(args.deep_view() =~= pre + rf);
    }
}

/// A flag configures the native-library search path when it begins with the
/// fixed prefix of that flag.
pub open spec fn is_native_lib_flag(s: Seq<char>) -> bool {
    s.len() >= "-Djava.library.path="@.len() && s.take("-Djava.library.path="@.len() as int)
        == "-Djava.library.path="@
}

/// The required block holds a native-library flag exactly when the internal
/// config supplies a native-library path.
pub proof fn lemma_native_lib_flag_iff(
    runtime_config: RuntimeConfig,
    service_config: ServiceConfig,
    internal_config: InternalConfig,
)
    ensures
        (exists|i: int|
            0 <= i < required_flags_spec(runtime_config, service_config, internal_config).len()
                && is_native_lib_flag(
                #[trigger] required_flags_spec(runtime_config, service_config, internal_config)[i],
            )) <==> internal_config.system_lib_path is Some,
{
    reveal_strlit("-Djava.library.path=");
    reveal_strlit("-Djava.class.path=");
    reveal_strlit("-Dlog4j.configurationFile=");
    let rf = required_flags_spec(runtime_config, service_config, internal_config);
    let p = "-Djava.library.path="@;
    match internal_config.system_lib_path {
        Some(lib) => {
            assert((p + lib@).take(p.len() as int) =~= p);
            assert(is_native_lib_flag(rf[0]));
        },
        None => {
            assert forall|i: int| 0 <= i < rf.len() implies !is_native_lib_flag(#[trigger] rf[i]) by {
                if is_native_lib_flag(rf[i]) {
                    if i == 0 {
                        assert(rf[0].take(p.len() as int)[7] == p[7]);
                        assert(rf[0][7] == "-Djava.class.path="@[7]);
                    } else {
                        assert(rf[1].take(p.len() as int)[2] == p[2]);
                        assert(rf[1][2] == "-Dlog4j.configurationFile="@[2]);
                    }
                }
            }
        },
    }
}

/// A flag asks for the debugger-attach agent when it begins with the fixed
/// prefix of that flag.
pub open spec fn is_debug_agent_flag(s: Seq<char>) -> bool {
    s.len() >= "-agentlib:"@.len() && s.take("-agentlib:"@.len() as int) == "-agentlib:"@
}

/// The optional block holds a debugger-attach flag exactly when a debug
/// socket was configured.
pub proof fn lemma_debug_flag_iff(jvm_config: JvmConfig)
    ensures
        (exists|i: int|
            0 <= i < optional_flags_spec(jvm_config).len() && is_debug_agent_flag(
                #[trigger] optional_flags_spec(jvm_config)[i],
            )) <==> jvm_config.jvm_debug_socket is Some,
{
    let p = "-agentlib:"@;
    match jvm_config.jvm_debug_socket {
        Some(socket) => {
            let flag = "-agentlib:jdwp=transport=dt_socket,server=y,suspend=n,address="@ + socket@;
            reveal_strlit("-agentlib:");
            reveal_strlit("-agentlib:jdwp=transport=dt_socket,server=y,suspend=n,address=");
            assert(flag.take(p.len() as int) =~= p);
            assert(is_debug_agent_flag(optional_flags_spec(jvm_config)[0]));
        },
        None => {
        },
    }
}

/// The debug-attach flag, present exactly when a debug socket is configured.
pub open spec fn optional_flags_spec(jvm_config: JvmConfig) -> Seq<Seq<char>> {
    match jvm_config.jvm_debug_socket {
        Some(socket) => seq![
            "-agentlib:jdwp=transport=dt_socket,server=y,suspend=n,address="@ + socket@,
        ],
        None => Seq::empty(),
    }
}

/// Appends the debugger-attach flag when a debug socket was configured.
pub fn add_optional_arguments(args: &mut Vec<String>, jvm_config: &JvmConfig)
    ensures
        final(args).deep_view() == old(args).deep_view() + optional_flags_spec(*jvm_config),
{
    let ghost pre = args.deep_view();
    if let Some(socket) = &jvm_config.jvm_debug_socket {
        args.push(String::from_str(
            "-agentlib:jdwp=transport=dt_socket,server=y,suspend=n,address=",
        ).concat(socket.as_str()));
    }
    proof {
        assert(args.deep_view() =~= pre + optional_flags_spec(*jvm_config));
    }
}

/// The whole creation argument list in its four fixed phases: validated
/// pre-user flags, required flags, the optional debug flag, validated
/// post-user flags.
pub open spec fn built_arguments_spec(
    jvm_config: JvmConfig,
    runtime_config: RuntimeConfig,
    service_config: ServiceConfig,
    internal_config: InternalConfig,
) -> Seq<Seq<char>> {
    jvm_config.args_prepend.deep_view() + required_flags_spec(
        runtime_config,
        service_config,
        internal_config,
    ) + optional_flags_spec(jvm_config) + jvm_config.args_append.deep_view()
}

/// Builds the ordered creation argument list; one malformed raw user flag
/// fails the whole build.
pub fn build_jvm_arguments(
    jvm_config: &JvmConfig,
    runtime_config: &RuntimeConfig,
    service_config: &ServiceConfig,
    internal_config: &InternalConfig,
) -> (r: Result<Vec<String>, Error>)
    ensures
        r is Ok <==> valid_user_flags(jvm_config.args_prepend.deep_view()) && valid_user_flags(
            jvm_config.args_append.deep_view(),
        ),
        r matches Ok(v) ==> v.deep_view() == built_arguments_spec(
            *jvm_config,
            *runtime_config,
            *service_config,
            *internal_config,
        ),
        r matches Err(e) ==> (if valid_user_flags(jvm_config.args_prepend.deep_view()) {
            names_first_invalid_flag(e, jvm_config.args_append.deep_view())
        } else {
            names_first_invalid_flag(e, jvm_config.args_prepend.deep_view())
        }),
{
    let mut args: Vec<String> = Vec::new();
    if let Err(e) = add_user_arguments(&mut args, &jvm_config.args_prepend) {
        return Err(e);
    }
    add_required_arguments(&mut args, runtime_config, service_config, internal_config);
    add_optional_arguments(&mut args, jvm_config);
    if let Err(e) = add_user_arguments(&mut args, &jvm_config.args_append) {
        return Err(e);
    }
    proof {
        assert(args.deep_view() =~= built_arguments_spec(
            *jvm_config,
            *runtime_config,
            *service_config,
            *internal_config,
        ));
    }
    Ok(args)
}

} // verus!
