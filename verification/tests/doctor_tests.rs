use devflow::doctor::{
    first_line_with_prefix, AppleProbes, DoctorEngine, CheckStatus, ConfigProbe,
    DoctorProbes, GradlewProbe, ToolRun,
};

fn ok(out: &str) -> ToolRun {
    ToolRun::Succeeded { stdout: out.to_string(), stderr: String::new() }
}

fn probes() -> DoctorProbes {
    DoctorProbes {
        apple: None,
        javac: ToolRun::Succeeded { stdout: String::new(), stderr: "javac 17.0.2\n".to_string() },
        java_home: Some("/jdk".to_string()),
        android_sdk: None,
        adb: ok("Android Debug Bridge version 1.0.41\nVersion 34"),
        gradle: ok("\n------\nGradle 8.5\n------\n"),
        cargo: ok("cargo 1.80.0\n"),
        cc: ToolRun::NotFound,
        pkg_config: ok("0.29.2\n"),
        tauri: ToolRun::NotFound,
        node: ok("v20.1.0\n"),
        bun: ToolRun::Failed { stdout: String::new(), stderr: "boom".to_string() },
        flutter: ToolRun::NotFound,
        config: ConfigProbe::Valid { platform: "android".to_string(), framework: "kotlin".to_string() },
        gradlew: Some(GradlewProbe { file_name: "gradlew".to_string(), display: "/p/gradlew".to_string(), executable: false }),
        package_swift: true,
    }
}

#[test]
fn diagnostics_report_in_order_with_counts() {
    let r = DoctorEngine::run_diagnostics("/p".to_string(), &probes());
    let names: Vec<&str> = r.checks.iter().map(|c| c.name.as_str()).collect();
    assert_eq!(
        names,
        vec![
            "Apple & Swift Toolchain",
            "Java Development Kit (JDK)",
            "Android SDK Directory",
            "Android Debug Bridge (adb)",
            "Gradle (System)",
            "Cargo (Rust Toolchain)",
            "C/C++ Compiler & Linker (cc)",
            "pkg-config Tool",
            "Tauri CLI",
            "Node.js Runtime",
            "Bun Runtime",
            "Flutter SDK",
            "devflow.toml Configuration",
            "Gradle Wrapper Permissions",
            "Swift Package Manifest",
        ]
    );
    assert_eq!(r.checks[1].message, "Operational (javac 17.0.2, JAVA_HOME=/jdk)");
    assert_eq!(r.checks[3].message, "Android Debug Bridge version 1.0.41");
    assert_eq!(r.checks[4].message, "Gradle 8.5");
    assert_eq!(r.checks[7].message, "Installed (v0.29.2)");
    assert_eq!(r.checks[10].message, "Tool 'bun' returned non-zero exit code.");
    assert_eq!(r.checks[11].message, "'flutter' not found (optional)");
    assert_eq!(r.checks[12].message, "Valid configuration (platform: android, framework: kotlin)");
    assert_eq!(r.checks[13].fix_hint, Some("chmod +x /p/gradlew".to_string()));
    assert_eq!(r.passed_count, 10);
    assert_eq!(r.warning_count, 3);
    assert_eq!(r.failure_count, 2);
    assert!(!r.is_healthy());
}

#[test]
fn apple_section_counts_simulators() {
    let mut p = probes();
    p.apple = Some(AppleProbes {
        xcode_select: ok("/Library/Developer/CommandLineTools\n"),
        swift: ok("swift-driver version: 1.90\nTarget: arm64"),
        sdk: ToolRun::NotFound,
        xcodebuild: Some(ToolRun::Failed { stdout: String::new(), stderr: "Agreeing to the Xcode/iOS LICENSE requires admin".to_string() }),
        simctl: ok("== Devices ==\n    iPhone 15 (A) (Shutdown)\n    iPhone 15 Pro (B) (Booted)\n-- iOS 17 --\n"),
    });
    let r = DoctorEngine::run_diagnostics("/p".to_string(), &p);
    assert_eq!(r.checks[0].status, CheckStatus::Warning);
    assert_eq!(r.checks[0].message, "Active path: /Library/Developer/CommandLineTools (Command Line Tools)");
    assert_eq!(r.checks[1].message, "swift-driver version: 1.90");
    assert_eq!(r.checks[2].status, CheckStatus::Warning);
    assert_eq!(r.checks[3].name, "Xcode.app License");
    assert_eq!(r.checks[3].status, CheckStatus::Failed);
    assert_eq!(r.checks[4].message, "Available (2 simulator devices discovered)");
}

#[test]
fn required_tool_failures_fail() {
    let c = DoctorEngine::check_tool_with_category("make", "Make", "Build", true, &ToolRun::NotFound);
    assert_eq!(c.status, CheckStatus::Failed);
    assert_eq!(c.message, "'make' not found in PATH");
    assert_eq!(c.fix_hint, Some("Please install 'make' and add it to your system PATH.".to_string()));
    let d = DoctorEngine::check_tool_with_category("make", "Make", "Build", true, &ToolRun::Failed { stdout: String::new(), stderr: " bad \n".to_string() });
    assert_eq!(d.message, "Tool 'make' failed: bad");
}

#[test]
fn gradle_version_line_is_found_or_defaulted() {
    assert_eq!(first_line_with_prefix("a\nGradle 7\n", "Gradle ", "Gradle installed"), "Gradle 7");
    assert_eq!(first_line_with_prefix("nothing", "Gradle ", " Gradle installed "), "Gradle installed");
}
