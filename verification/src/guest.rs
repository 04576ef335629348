//! The guest that the session looks for, and the description it is defined
//! from when it is missing.

use vstd::prelude::*;
use vstd::string::*;

verus! {

/// Name of the guest.
pub const GUEST_NAME: &'static str = "libvirt-rs-mewz";

/// The description up to the guest's name.
pub const DESCRIPTION_HEAD: &'static str = "<domain type=\"qemu\">\n\t\t         <name>";

/// The description after the guest's name.
pub const DESCRIPTION_TAIL: &'static str = "</name>\n                         <memory unit=\"KiB\">524288</memory>\n                         <vcpu>2</vcpu>\n                         <os>\n                           <type arch='x86_64' machine='pc'>hvm</type>\n                           <boot dev='hd'/>\n                           <kernel>/home/ainno/Projects/mew/zig-out/bin/mewz.elf</kernel>\n                         </os>\n                         <features>\n                            <acpi/>\n                            <apic/>\n                            <pae/>\n                         </features>\n                         <on_poweroff>destroy</on_poweroff>\n                         <on_reboot>restart</on_reboot>\n                         <on_crash>restart</on_crash>\n                         <devices>\n                            <emulator>/usr/bin/qemu-system-x86_64</emulator>\n                            <interface type='network'>\n                                <mac address='52:54:0:12:34:56'/>\n                                <source network='default'/>\n                                <model type='virtio'/>\n                            </interface>\n                            <graphics type='vnc' port='-1' autoport='yes'/>\n                            <serial type='pty'>\n                                <target port='0'/>\n                            </serial>\n                         </devices>\n                         <qemu:arg value='-no-shutdown'/>\n                         <qemu:arg value='-no-reboot'/>\n                         <qemu:arg value='-nographic'/>\n                       </domain>";

/// The description of a guest called `name`: the fixed text around the name.
pub open spec fn description_of(name: Seq<char>) -> Seq<char> {
    DESCRIPTION_HEAD@ + name + DESCRIPTION_TAIL@
}

/// The description that is submitted when the guest is missing.
pub open spec fn guest_description() -> Seq<char> {
    description_of(GUEST_NAME@)
}

/// Writes the description of a guest called `name`. The name is inserted as
/// it is; nothing is validated or escaped.
pub fn describe_guest(name: &str) -> (xml: String)
    ensures
        xml@ == description_of(name@),
{
    let mut xml = String::from_str(DESCRIPTION_HEAD);
    xml.append(name);
    xml.append(DESCRIPTION_TAIL);
    xml
}

/// Neither the guest's name nor its description holds a NUL character, so
/// both can always be handed to the daemon.
pub proof fn lemma_guest_texts_hold_no_nul()
    ensures
        !GUEST_NAME@.contains('\0'),
        !guest_description().contains('\0'),
{
    reveal_strlit("libvirt-rs-mewz");
    reveal_strlit("<domain type=\"qemu\">\n\t\t         <name>");
    reveal_strlit("</name>\n                         <memory unit=\"KiB\">524288</memory>\n                         <vcpu>2</vcpu>\n                         <os>\n                           <type arch='x86_64' machine='pc'>hvm</type>\n                           <boot dev='hd'/>\n                           <kernel>/home/ainno/Projects/mew/zig-out/bin/mewz.elf</kernel>\n                         </os>\n                         <features>\n                            <acpi/>\n                            <apic/>\n                            <pae/>\n                         </features>\n                         <on_poweroff>destroy</on_poweroff>\n                         <on_reboot>restart</on_reboot>\n                         <on_crash>restart</on_crash>\n                         <devices>\n                            <emulator>/usr/bin/qemu-system-x86_64</emulator>\n                            <interface type='network'>\n                                <mac address='52:54:0:12:34:56'/>\n                                <source network='default'/>\n                                <model type='virtio'/>\n                            </interface>\n                            <graphics type='vnc' port='-1' autoport='yes'/>\n                            <serial type='pty'>\n                                <target port='0'/>\n                            </serial>\n                         </devices>\n                         <qemu:arg value='-no-shutdown'/>\n                         <qemu:arg value='-no-reboot'/>\n                         <qemu:arg value='-nographic'/>\n                       </domain>");
    let name = GUEST_NAME@;
    let head = DESCRIPTION_HEAD@;
    let tail = DESCRIPTION_TAIL@;
    assert forall|i: int| 0 <= i < name.len() implies name[i] != '\0' by {}
    assert forall|i: int| 0 <= i < head.len() implies head[i] != '\0' by {}
    assert forall|i: int| 0 <= i < tail.len() implies tail[i] != '\0' by {}
    let all = head + name + tail;
    assert forall|i: int| 0 <= i < all.len() implies all[i] != '\0' by {
        if i < head.len() {
            assert(all[i] == head[i]);
        } else if i < head.len() + name.len() {
            assert(all[i] == name[i - head.len()]);
        } else {
            assert(all[i] == tail[i - head.len() - name.len()]);
        }
    }
}

/// Whether `text` holds a NUL character, which no text handed to the daemon
/// may hold.
pub fn has_nul(text: &str) -> (found: bool)
    ensures
        found == text@.contains('\0'),
{
    let n: usize = text.unicode_len();
    let mut i: usize = 0;
    while i < n
        invariant
            n == text@.len(),
            i <= n,
            forall|k: int| 0 <= k < i ==> text@[k] != '\0',
        decreases n - i,
    {
        if text.get_char(i) == '\0' {
            return true;
        }
        i = i + 1;
    }
    false
}

} // verus!
