use hypervisor_report::domain::DomainStats;
use hypervisor_report::guest::{describe_guest, has_nul, GUEST_NAME};
use hypervisor_report::lines::{
    connected_text, count_text, figure_text, hypervisor_text, identity_text, join, routine_text,
    silent, single, stats_texts, truth_text,
};
use hypervisor_report::script::Routine;

#[test]
fn connected_line_quotes_the_uri() {
    assert_eq!(connected_text("qemu:///system"), "Connected to hypervisor at 'qemu:///system'");
    assert_eq!(connected_text(""), "Connected to hypervisor at ''");
}

#[test]
fn hypervisor_line_shows_type_and_three_parts() {
    assert_eq!(hypervisor_text("QEMU", 2_008_000), "Hypervisor: 'QEMU' version: 2.8.0");
    assert_eq!(hypervisor_text("Test", 2), "Hypervisor: 'Test' version: 0.0.2");
    assert_eq!(
        hypervisor_text("Xen", u32::MAX),
        "Hypervisor: 'Xen' version: 4294.967.295"
    );
}

#[test]
fn count_line_shows_both_counts() {
    assert_eq!(count_text(1, 0), "There are 1 active and 0 inactive domains");
    assert_eq!(count_text(0, 12), "There are 0 active and 12 inactive domains");
}

#[test]
fn identity_line_shows_id_name_and_activity() {
    assert_eq!(identity_text(5, "vm1", true), "ID: 5, Name: vm1, Active: true");
    assert_eq!(identity_text(0, "idle", false), "ID: 0, Name: idle, Active: false");
}

#[test]
fn truth_is_spelled_out() {
    assert_eq!(truth_text(true), "true");
    assert_eq!(truth_text(false), "false");
}

#[test]
fn figure_line_is_label_then_number() {
    assert_eq!(figure_text("    CPUs: ", 2), "    CPUs: 2");
    assert_eq!(figure_text("", 0), "0");
}

#[test]
fn stats_lines_are_heading_and_five_figures() {
    let stats = DomainStats {
        state: 1,
        max_mem: 1_048_576,
        memory: 524_288,
        nr_virt_cpu: 2,
        cpu_time: 123_456_789,
    };
    assert_eq!(
        stats_texts(&stats),
        vec![
            "Domain info:",
            "    State: 1",
            "    Max Memory: 1048576",
            "    Memory: 524288",
            "    CPUs: 2",
            "    CPU Time: 123456789",
        ]
    );
}

#[test]
fn routine_messages_name_the_routine() {
    assert_eq!(
        routine_text(Routine::HypervisorInfo, "boom"),
        "Failed to show hypervisor info: boom"
    );
    assert_eq!(routine_text(Routine::Domains, "boom"), "Failed to show domains info: boom");
}

#[test]
fn join_appends() {
    assert_eq!(join("ab", "cd"), "abcd");
    assert_eq!(join("", ""), "");
}

#[test]
fn single_and_silent_lists() {
    assert_eq!(single(String::from("x")), vec!["x"]);
    assert!(silent().is_empty());
}

#[test]
fn guest_name_is_fixed() {
    assert_eq!(GUEST_NAME, "libvirt-rs-mewz");
}

#[test]
fn guest_description_is_the_template_around_the_name() {
    let name = "libvirt-rs-mewz";
    let expected = format!(
        "<domain type=\"qemu\">
		         <name>{}</name>
                         <memory unit=\"KiB\">524288</memory>
                         <vcpu>2</vcpu>
                         <os>
                           <type arch='x86_64' machine='pc'>hvm</type>
                           <boot dev='hd'/>
                           <kernel>/home/ainno/Projects/mew/zig-out/bin/mewz.elf</kernel>
                         </os>
                         <features>
                            <acpi/>
                            <apic/>
                            <pae/>
                         </features>
                         <on_poweroff>destroy</on_poweroff>
                         <on_reboot>restart</on_reboot>
                         <on_crash>restart</on_crash>
                         <devices>
                            <emulator>/usr/bin/qemu-system-x86_64</emulator>
                            <interface type='network'>
                                <mac address='52:54:0:12:34:56'/>
                                <source network='default'/>
                                <model type='virtio'/>
                            </interface>
                            <graphics type='vnc' port='-1' autoport='yes'/>
                            <serial type='pty'>
                                <target port='0'/>
                            </serial>
                         </devices>
                         <qemu:arg value='-no-shutdown'/>
                         <qemu:arg value='-no-reboot'/>
                         <qemu:arg value='-nographic'/>
                       </domain>",
        name
    );
    assert_eq!(describe_guest(GUEST_NAME), expected);
}

#[test]
fn guest_description_inserts_any_name_unchanged() {
    let xml = describe_guest("a<b>&c");
    assert!(xml.starts_with("<domain type=\"qemu\">\n\t\t         <name>a<b>&c</name>\n"));
    assert!(xml.ends_with("<qemu:arg value='-nographic'/>\n                       </domain>"));
    assert_eq!(xml.len(), describe_guest("").len() + 6);
}

#[test]
fn nul_is_found_wherever_it_stands() {
    assert!(!has_nul(""));
    assert!(!has_nul("qemu:///system"));
    assert!(has_nul("\0"));
    assert!(has_nul("a\0"));
    assert!(has_nul("\0a"));
    assert!(has_nul("ab\0cd"));
    assert!(!has_nul("h\u{e9}llo 0"));
    assert!(has_nul("h\u{e9}llo\0"));
}

#[test]
fn guest_texts_hold_no_nul() {
    assert!(!has_nul(GUEST_NAME));
    assert!(!has_nul(&describe_guest(GUEST_NAME)));
}
