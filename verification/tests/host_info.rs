use noah_desktop::host_info::{
    cpu_info, distro_name, file_excerpt, limit_lines, linux_access_denied, linux_path_allowed,
    nameserver_lines, win_access_denied, win_clean_path, win_path_allowed,
};

#[test]
fn linux_reads_allowed_under_user_and_log_places() {
    assert!(linux_path_allowed("/home/ann/notes.txt"));
    assert!(linux_path_allowed("/var/log/syslog"));
    assert!(linux_path_allowed("/etc/hosts"));
    assert!(linux_path_allowed("/proc/cpuinfo"));
    assert!(linux_path_allowed("/sys/class/net/eth0/speed"));
}

#[test]
fn linux_reads_refused_for_protected_or_unlisted_places() {
    assert!(!linux_path_allowed("/proc/kcore"));
    assert!(!linux_path_allowed("/proc/kmem"));
    assert!(!linux_path_allowed("/dev/sda"));
    assert!(!linux_path_allowed("/boot/vmlinuz"));
    assert!(!linux_path_allowed("/root/.ssh/id_rsa"));
    assert!(!linux_path_allowed("/home"));
    assert!(!linux_path_allowed(""));
}

#[test]
fn windows_reads_compare_without_case() {
    let none: Vec<String> = Vec::new();
    assert!(win_path_allowed("C:\\Users\\bob\\a.txt", &none));
    assert!(win_path_allowed("c:\\users\\bob\\a.txt", &none));
    assert!(win_path_allowed("C:\\PROGRAM FILES (X86)\\App\\log.txt", &none));
    assert!(!win_path_allowed("C:\\Windows\\System32\\config\\SAM", &none));
    assert!(!win_path_allowed("c:\\windows\\system32\\drivers\\etc\\hosts", &none));
    assert!(!win_path_allowed("C:\\$Recycle.Bin\\x", &none));
    assert!(!win_path_allowed("D:\\data\\x.txt", &none));
}

#[test]
fn windows_reads_allowed_under_user_directories() {
    let dirs = vec!["D:\\Profiles\\bob".to_string()];
    assert!(win_path_allowed("d:\\profiles\\BOB\\x.txt", &dirs));
    assert!(!win_path_allowed("D:\\Other\\x.txt", &dirs));
    // A forbidden place stays forbidden whatever the user's directories are.
    let wide = vec!["C:\\".to_string()];
    assert!(!win_path_allowed("C:\\Boot\\BCD", &wide));
    assert!(win_path_allowed("C:\\anything.txt", &wide));
}

#[test]
fn windows_clean_path_drops_extended_prefix() {
    assert_eq!(win_clean_path("\\\\?\\C:\\Users\\bob"), "C:\\Users\\bob");
    assert_eq!(win_clean_path("C:\\Users\\bob"), "C:\\Users\\bob");
}

#[test]
fn access_denied_messages_name_the_path() {
    assert_eq!(
        linux_access_denied("/root/x"),
        "Access denied: '/root/x' is outside the allowed scope. Allowed locations include /home/*, /var/log/*, /etc/*, /tmp/*, /opt/*."
    );
    assert_eq!(
        win_access_denied("D:\\x"),
        "Access denied: 'D:\\x' is outside the allowed scope. Allowed locations include C:\\Users\\*, C:\\ProgramData\\*, C:\\Windows\\Logs\\*."
    );
}

#[test]
fn cpu_info_reads_model_and_cores() {
    let text = "processor\t: 0\nvendor_id\t: GenuineIntel\nmodel name\t: Intel(R) Core(TM) i7 CPU @ 2.60GHz\n\nprocessor\t: 1\nmodel name\t: other\n";
    let (model, cores) = cpu_info(text);
    assert_eq!(model, "Intel(R) Core(TM) i7 CPU @ 2.60GHz");
    assert_eq!(cores, 2);
}

#[test]
fn cpu_info_defaults_when_unreadable() {
    assert_eq!(cpu_info(""), ("unknown".to_string(), 1));
    assert_eq!(cpu_info("model name without colon\n"), ("unknown".to_string(), 1));
}

#[test]
fn cpu_info_takes_second_colon_field() {
    let (model, cores) = cpu_info("model name : AMD: Ryzen 7\nprocessor : 0\n");
    assert_eq!(model, "AMD");
    assert_eq!(cores, 1);
}

#[test]
fn distro_name_reads_pretty_name() {
    let text = "NAME=\"Ubuntu\"\nPRETTY_NAME=\"Ubuntu 22.04.3 LTS\"\nVERSION_ID=\"22.04\"\n";
    assert_eq!(distro_name(text), "Ubuntu 22.04.3 LTS");
    assert_eq!(distro_name("PRETTY_NAME=Arch Linux\n"), "Arch Linux");
    assert_eq!(distro_name("NAME=Foo\n"), "Unknown Linux");
    assert_eq!(distro_name(""), "Unknown Linux");
}

#[test]
fn nameserver_lines_keeps_only_nameservers() {
    let text = "# generated\nnameserver 1.1.1.1\nsearch lan\nnameserver 8.8.8.8\n";
    assert_eq!(nameserver_lines(text), "nameserver 1.1.1.1\nnameserver 8.8.8.8");
    assert_eq!(nameserver_lines("search lan\n"), "");
}

#[test]
fn limit_lines_cuts_long_output() {
    let long: String = (1..=30).map(|i| format!("line {}\n", i)).collect();
    let cut = limit_lines(&long, 26);
    assert_eq!(cut.lines().count(), 26);
    assert!(cut.starts_with("line 1\n"));
    assert!(cut.ends_with("line 26"));
    let short = "a\nb\n";
    assert_eq!(limit_lines(short, 26), short);
}

#[test]
fn file_excerpt_shows_first_500_lines() {
    let long: String = (1..=600).map(|i| format!("{}\n", i)).collect();
    let e = file_excerpt(&long);
    assert!(e.starts_with("... (showing first 500 of 600 lines)\n1\n2\n"));
    assert!(e.ends_with("\n500"));
    assert_eq!(e.lines().count(), 501);
    let short = "x\ny";
    assert_eq!(file_excerpt(short), short);
}
