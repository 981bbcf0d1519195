use java_bindings::args::{build_jvm_arguments, join_paths, validate_and_convert};
use java_bindings::config::{InternalConfig, JvmConfig, RuntimeConfig, ServiceConfig};

fn strings(items: &[&str]) -> Vec<String> {
    items.iter().map(|s| s.to_string()).collect()
}

#[test]
fn validate_and_convert_keeps_well_formed_flag() {
    assert_eq!("-Xmx2g", validate_and_convert("-Xmx2g").unwrap());
    assert_eq!("-ea", validate_and_convert("-ea").unwrap());
}

#[test]
fn validate_and_convert_rejects_flag_without_dash() {
    let err = validate_and_convert("Xmx2g").unwrap_err();
    assert_eq!("Invalid JVM argument: Xmx2g", err.description());
}

#[test]
fn validate_and_convert_rejects_empty_flag() {
    let err = validate_and_convert("").unwrap_err();
    assert_eq!("Invalid JVM argument: ", err.description());
}

#[test]
fn validate_and_convert_rejects_interior_nul() {
    let flag = "-Dbad=\0value".to_string();
    let err = validate_and_convert(&flag).unwrap_err();
    assert_eq!(format!("Invalid JVM argument: {}", flag), err.description());
}

#[test]
fn build_fails_on_flag_with_interior_nul() {
    let jvm_config = JvmConfig {
        args_prepend: vec!["-Dbad=\0value".to_string()],
        args_append: vec![],
        jvm_debug_socket: None,
    };
    let runtime_config = RuntimeConfig {
        port: 1,
        log_config_path: "/log.xml".to_string(),
    };
    let service_config = ServiceConfig {
        service_class_path: "/s.jar".to_string(),
    };
    let internal_config = InternalConfig {
        system_class_path: "/sys.jar".to_string(),
        system_lib_path: None,
    };
    let err =
        build_jvm_arguments(&jvm_config, &runtime_config, &service_config, &internal_config)
            .unwrap_err();
    assert_eq!("Invalid JVM argument: -Dbad=\0value", err.description());
}

#[test]
fn join_paths_cases() {
    assert_eq!("", join_paths(&strings(&[])));
    assert_eq!("/one", join_paths(&strings(&["/one"])));
    assert_eq!("/one:/two:/three", join_paths(&strings(&["/one", "/two", "/three"])));
}

#[test]
fn build_emits_all_phases_in_order() {
    let jvm_config = JvmConfig {
        args_prepend: strings(&["-Xdebug", "-ea"]),
        args_append: strings(&["-Xmx1g"]),
        jvm_debug_socket: Some("localhost:5005".to_string()),
    };
    let runtime_config = RuntimeConfig {
        port: 6300,
        log_config_path: "/etc/log4j.xml".to_string(),
    };
    let service_config = ServiceConfig {
        service_class_path: "/srv/service.jar".to_string(),
    };
    let internal_config = InternalConfig {
        system_class_path: "/srv/system.jar".to_string(),
        system_lib_path: Some("/srv/lib".to_string()),
    };
    let args =
        build_jvm_arguments(&jvm_config, &runtime_config, &service_config, &internal_config)
            .unwrap();
    assert_eq!(
        strings(&[
            "-Xdebug",
            "-ea",
            "-Djava.library.path=/srv/lib",
            "-Djava.class.path=/srv/system.jar:/srv/service.jar",
            "-Dlog4j.configurationFile=/etc/log4j.xml",
            "-agentlib:jdwp=transport=dt_socket,server=y,suspend=n,address=localhost:5005",
            "-Xmx1g",
        ]),
        args
    );
}

#[test]
fn build_omits_native_lib_flag_and_debug_flag_when_unconfigured() {
    let jvm_config = JvmConfig {
        args_prepend: strings(&[]),
        args_append: strings(&[]),
        jvm_debug_socket: None,
    };
    let runtime_config = RuntimeConfig {
        port: 6300,
        log_config_path: "/log.xml".to_string(),
    };
    let service_config = ServiceConfig {
        service_class_path: "/service.jar".to_string(),
    };
    let internal_config = InternalConfig {
        system_class_path: "/system.jar".to_string(),
        system_lib_path: None,
    };
    let args =
        build_jvm_arguments(&jvm_config, &runtime_config, &service_config, &internal_config)
            .unwrap();
    assert_eq!(
        strings(&[
            "-Djava.class.path=/system.jar:/service.jar",
            "-Dlog4j.configurationFile=/log.xml",
        ]),
        args
    );
}

#[test]
fn build_fails_on_malformed_prepend_flag() {
    let jvm_config = JvmConfig {
        args_prepend: strings(&["-ok", "bad"]),
        args_append: strings(&[]),
        jvm_debug_socket: None,
    };
    let runtime_config = RuntimeConfig {
        port: 1,
        log_config_path: "/log.xml".to_string(),
    };
    let service_config = ServiceConfig {
        service_class_path: "/s.jar".to_string(),
    };
    let internal_config = InternalConfig {
        system_class_path: "/sys.jar".to_string(),
        system_lib_path: None,
    };
    let err =
        build_jvm_arguments(&jvm_config, &runtime_config, &service_config, &internal_config)
            .unwrap_err();
    assert_eq!("Invalid JVM argument: bad", err.description());
}

#[test]
fn build_fails_on_malformed_append_flag() {
    let jvm_config = JvmConfig {
        args_prepend: strings(&["-ok"]),
        args_append: strings(&["also bad"]),
        jvm_debug_socket: None,
    };
    let runtime_config = RuntimeConfig {
        port: 1,
        log_config_path: "/log.xml".to_string(),
    };
    let service_config = ServiceConfig {
        service_class_path: "/s.jar".to_string(),
    };
    let internal_config = InternalConfig {
        system_class_path: "/sys.jar".to_string(),
        system_lib_path: None,
    };
    let err =
        build_jvm_arguments(&jvm_config, &runtime_config, &service_config, &internal_config)
            .unwrap_err();
    assert_eq!("Invalid JVM argument: also bad", err.description());
}
