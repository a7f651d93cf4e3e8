//! What the tool reads of the machine — product identity, network addresses
//! and disks — as plain values, and the choices it makes from them.

use crate::imaging::ImagingApp;
use crate::text::{
    decimal, has_prefix, has_suffix, law_replace_without_occurrence, occurs_at, push_decimal, replace, replace_all,
    starts_with,
};
use vstd::prelude::*;

verus! {

/// Product identity of the machine; `None` where the firmware reports nothing.
pub struct ProductInfo {
    pub vendor_name: Option<String>,
    pub name: Option<String>,
    pub stock_keeping_unit: Option<String>,
    pub serial_number: Option<String>,
}

impl ProductInfo {
    pub open spec fn vendor_text(&self) -> Seq<char> {
        match self.vendor_name {
            Some(v) => v@,
            None => "NO_VENDOR_FOUND"@,
        }
    }

    pub open spec fn model_text(&self) -> Seq<char> {
        match self.name {
            Some(v) => v@,
            None => "NO_MODEL_FOUND"@,
        }
    }

    pub open spec fn sku_text(&self) -> Seq<char> {
        match self.stock_keeping_unit {
            Some(v) => v@,
            None => "NO_SKU_FOUND"@,
        }
    }

    pub open spec fn serial_text(&self) -> Seq<char> {
        match self.serial_number {
            Some(v) => v@,
            None => "NO_SERIAL_FOUND"@,
        }
    }
}

/// `s` with `{vendor}`, `{model}`, `{sku}` and `{serial}` replaced, in that
/// order, by the product's identity.
pub open spec fn substitute_vars(s: Seq<char>, info: &ProductInfo) -> Seq<char> {
    replace_all(
        replace_all(
            replace_all(replace_all(s, "{vendor}"@, info.vendor_text()), "{model}"@, info.model_text()),
            "{sku}"@,
            info.sku_text(),
        ),
        "{serial}"@,
        info.serial_text(),
    )
}

/// A text in which none of `{vendor}`, `{model}`, `{sku}`, `{serial}` occurs
/// is left as it is by substitution.
pub proof fn law_text_without_placeholders_unchanged(s: Seq<char>, info: &ProductInfo)
    requires
        forall|i: int| !occurs_at(s, "{vendor}"@, i),
        forall|i: int| !occurs_at(s, "{model}"@, i),
        forall|i: int| !occurs_at(s, "{sku}"@, i),
        forall|i: int| !occurs_at(s, "{serial}"@, i),
    ensures
        substitute_vars(s, info) == s,
{
    reveal_strlit("{vendor}");
    reveal_strlit("{model}");
    reveal_strlit("{sku}");
    reveal_strlit("{serial}");
    law_replace_without_occurrence(s, "{vendor}"@, info.vendor_text());
    law_replace_without_occurrence(s, "{model}"@, info.model_text());
    law_replace_without_occurrence(s, "{sku}"@, info.sku_text());
    law_replace_without_occurrence(s, "{serial}"@, info.serial_text());
}

/// An IP address, by its numeric parts.
pub enum IpAddress {
    V4([u8; 4]),
    V6([u16; 8]),
}

impl IpAddress {
    /// `127.0.0.0/8` or `::1`.
    pub open spec fn is_loopback(&self) -> bool {
        match self {
            IpAddress::V4(o) => o@[0] == 127,
            IpAddress::V6(s) => s@ == seq![0u16, 0, 0, 0, 0, 0, 0, 1],
        }
    }

    /// `224.0.0.0/4` or `ff00::/8`.
    pub open spec fn is_multicast(&self) -> bool {
        match self {
            IpAddress::V4(o) => 224 <= o@[0] && o@[0] <= 239,
            IpAddress::V6(s) => s@[0] >= 0xff00,
        }
    }

    /// `0.0.0.0` or `::`.
    pub open spec fn is_unspecified(&self) -> bool {
        match self {
            IpAddress::V4(o) => o@ == seq![0u8, 0, 0, 0],
            IpAddress::V6(s) => s@ == seq![0u16, 0, 0, 0, 0, 0, 0, 0],
        }
    }
}

/// One address of a network interface: the address, its usual text form and
/// its prefix length.
pub struct IpNetworkInfo {
    pub address: IpAddress,
    pub text: String,
    pub prefix: u8,
}

/// A network interface: its addresses and how many packets it has received.
pub struct NetworkInterface {
    pub addresses: Vec<IpNetworkInfo>,
    pub total_packets_received: u64,
}

/// An address worth showing: not loopback, multicast, unspecified, nor
/// link-local by its text (`169.` or `fe80::`).
pub open spec fn address_qualifies(net: IpNetworkInfo) -> bool {
    &&& !net.address.is_loopback()
    &&& !net.address.is_multicast()
    &&& !net.address.is_unspecified()
    &&& !has_prefix(net.text@, "169."@)
    &&& !has_prefix(net.text@, "fe80::"@)
}

/// An interface that has seen traffic: more than a thousand packets received.
pub open spec fn interface_active(packets: u64) -> bool {
    packets > 1000
}

/// `address/prefix`.
pub open spec fn address_label(net: IpNetworkInfo) -> Seq<char> {
    net.text@ + "/"@ + decimal(net.prefix as nat)
}

/// The label of the first qualifying address among `nets` of an interface
/// that received `packets` packets.
pub open spec fn first_address(nets: Seq<IpNetworkInfo>, packets: u64) -> Option<Seq<char>>
    decreases nets.len(),
{
    if nets.len() == 0 {
        None
    } else if address_qualifies(nets[0]) && interface_active(packets) {
        Some(address_label(nets[0]))
    } else {
        first_address(nets.drop_first(), packets)
    }
}

/// The label of the first qualifying address, interfaces in order and the
/// addresses of each in order.
pub open spec fn first_ip(ifaces: Seq<NetworkInterface>) -> Option<Seq<char>>
    decreases ifaces.len(),
{
    if ifaces.len() == 0 {
        None
    } else {
        match first_address(ifaces[0].addresses@, ifaces[0].total_packets_received) {
            Some(l) => Some(l),
            None => first_ip(ifaces.drop_first()),
        }
    }
}

/// A disk as the tool sees it. `mount_point` is the mount path as displayed;
/// `mount_point_utf8` tells whether that path is valid Unicode as it stands.
pub struct DiskInfo {
    pub name: String,
    pub mount_point: String,
    pub mount_point_utf8: bool,
    pub is_removable: bool,
    pub is_read_only: bool,
    pub available_space: u64,
    pub total_space: u64,
}

/// A disk that can take the image: fixed, writable, with more than 8 GB free.
pub open spec fn disk_eligible(d: DiskInfo) -> bool {
    !d.is_removable && !d.is_read_only && d.available_space > 8_000_000_000
}

/// `name mount size GB`, the size in whole gigabytes (10^9 bytes).
pub open spec fn disk_label(d: DiskInfo) -> Seq<char> {
    d.name@ + " "@ + d.mount_point@ + " "@ + decimal((d.total_space / 1_000_000_000) as nat) + " GB"@
}

/// The mount path of the last eligible disk.
pub open spec fn last_eligible_mount(disks: Seq<DiskInfo>) -> Option<Seq<char>>
    decreases disks.len(),
{
    if disks.len() == 0 {
        None
    } else if disk_eligible(disks.last()) {
        Some(disks.last().mount_point@)
    } else {
        last_eligible_mount(disks.drop_last())
    }
}

/// Where to save the downloaded image: `image.wim` on the last eligible
/// disk, or `image.wim` in the working directory when no disk is eligible.
pub open spec fn wim_save_path(disks: Seq<DiskInfo>) -> Seq<char> {
    match last_eligible_mount(disks) {
        Some(m) => m + "image.wim"@,
        None => "image.wim"@,
    }
}

/// `IP Address - ip; First Disk - disk`, with `Undefined` and `No disks found`
/// standing in for what could not be found.
pub open spec fn status_bar_text(ip: Result<Seq<char>, ()>, disk: Result<Seq<char>, ()>) -> Seq<char> {
    "IP Address - "@ + match ip {
        Ok(t) => t,
        Err(_) => "Undefined"@,
    } + "; First Disk - "@ + match disk {
        Ok(t) => t,
        Err(_) => "No disks found"@,
    }
}

/// No `{` in the text.
pub open spec fn brace_free(s: Seq<char>) -> bool {
    forall|i: int| 0 <= i < s.len() ==> s[i] != '{'
}

proof fn lemma_brace_free_has_no_placeholder(s: Seq<char>, p: Seq<char>)
    requires
        brace_free(s),
        p.len() > 0,
        p[0] == '{',
    ensures
        forall|i: int| !occurs_at(s, p, i),
{
    assert forall|i: int| !occurs_at(s, p, i) by {
        if occurs_at(s, p, i) {
            assert(s.subrange(i, i + p.len())[0] == s[i]);
        }
    }
}

proof fn lemma_replace_exact(p: Seq<char>, r: Seq<char>)
    requires
        p.len() > 0,
    ensures
        replace_all(p, p, r) == r,
{
    assert(p.subrange(0, p.len() as int) =~= p);
    assert(p.skip(p.len() as int) =~= Seq::<char>::empty());
    assert(replace_all(Seq::<char>::empty(), p, r) == Seq::<char>::empty());
    assert(r + Seq::<char>::empty() =~= r);
}

/// Each placeholder stands for its own part of the product identity:
/// `{vendor}` for the vendor, `{model}` for the model, `{sku}` for the SKU
/// and `{serial}` for the serial number (each with its fallback), when those
/// hold no `{` themselves.
pub proof fn law_each_placeholder_takes_its_value(info: &ProductInfo)
    requires
        brace_free(info.vendor_text()),
        brace_free(info.model_text()),
        brace_free(info.sku_text()),
        brace_free(info.serial_text()),
    ensures
        substitute_vars("{vendor}"@, info) == info.vendor_text(),
        substitute_vars("{model}"@, info) == info.model_text(),
        substitute_vars("{sku}"@, info) == info.sku_text(),
        substitute_vars("{serial}"@, info) == info.serial_text(),
{
    reveal_strlit("{vendor}");
    reveal_strlit("{model}");
    reveal_strlit("{sku}");
    reveal_strlit("{serial}");
    let v = "{vendor}"@;
    let m = "{model}"@;
    let k = "{sku}"@;
    let n = "{serial}"@;
    // each pattern leaves the others unchanged where they do not occur
    assert forall|s: Seq<char>, q: Seq<char>, r: Seq<char>|
        brace_free(s) && q.len() > 0 && q[0] == '{' implies replace_all(s, q, r) == s by {
        lemma_brace_free_has_no_placeholder(s, q);
        law_replace_without_occurrence(s, q, r);
    }
    // {vendor}
    lemma_replace_exact(v, info.vendor_text());
    // {model}
    assert forall|i: int| !occurs_at(m, v, i) by {
        if occurs_at(m, v, i) {
            assert(false);
        }
    }
    law_replace_without_occurrence(m, v, info.vendor_text());
    lemma_replace_exact(m, info.model_text());
    // {sku}
    assert forall|i: int| !occurs_at(k, v, i) by {}
    law_replace_without_occurrence(k, v, info.vendor_text());
    assert forall|i: int| !occurs_at(k, m, i) by {}
    law_replace_without_occurrence(k, m, info.model_text());
    lemma_replace_exact(k, info.sku_text());
    // {serial}
    assert forall|i: int| !occurs_at(n, v, i) by {
        if occurs_at(n, v, i) {
            assert(i == 0);
            assert(n.subrange(0, 8)[1] == n[1]);
            assert(n[1] != v[1]);
        }
    }
    law_replace_without_occurrence(n, v, info.vendor_text());
    assert forall|i: int| !occurs_at(n, m, i) by {
        if occurs_at(n, m, i) {
            assert(n.subrange(i, i + 7)[0] == n[i]);
            assert(n.subrange(i, i + 7)[1] == n[i + 1]);
        }
    }
    law_replace_without_occurrence(n, m, info.model_text());
    assert forall|i: int| !occurs_at(n, k, i) by {
        if occurs_at(n, k, i) {
            assert(n.subrange(i, i + 5)[0] == n[i]);
            assert(n.subrange(i, i + 5)[1] == n[i + 1]);
            assert(n.subrange(i, i + 5)[2] == n[i + 2]);
        }
    }
    law_replace_without_occurrence(n, k, info.sku_text());
    lemma_replace_exact(n, info.serial_text());
}

/// An address that is shown: it qualifies and its interface is active.
pub open spec fn usable(iface: NetworkInterface, j: int) -> bool {
    address_qualifies(iface.addresses@[j]) && interface_active(iface.total_packets_received)
}

proof fn lemma_first_address(nets: Seq<IpNetworkInfo>, packets: u64)
    ensures
        first_address(nets, packets) matches Some(l) ==> exists|j: int|
            0 <= j < nets.len() && address_qualifies(#[trigger] nets[j]) && interface_active(packets) && l
                == address_label(nets[j]) && forall|k: int|
                0 <= k < j ==> !(address_qualifies(#[trigger] nets[k]) && interface_active(packets)),
        first_address(nets, packets) is None ==> forall|j: int|
            0 <= j < nets.len() ==> !(address_qualifies(#[trigger] nets[j]) && interface_active(packets)),
    decreases nets.len(),
{
    if nets.len() > 0 {
        let rest = nets.drop_first();
        lemma_first_address(rest, packets);
        if address_qualifies(nets[0]) && interface_active(packets) {
            assert(0 <= 0 < nets.len() && address_qualifies(nets[0]));
        } else {
            match first_address(rest, packets) {
                Some(l) => {
                    let j = choose|j: int|
                        0 <= j < rest.len() && address_qualifies(#[trigger] rest[j]) && interface_active(packets)
                            && l == address_label(rest[j]) && forall|k: int|
                            0 <= k < j ==> !(address_qualifies(#[trigger] rest[k]) && interface_active(packets));
                    assert(nets[j + 1] == rest[j]);
                    assert forall|k: int| 0 <= k < j + 1 implies !(address_qualifies(#[trigger] nets[k])
                        && interface_active(packets)) by {
                        if k > 0 {
                            assert(nets[k] == rest[k - 1]);
                        }
                    }
                },
                None => {
                    assert forall|j: int| 0 <= j < nets.len() implies !(address_qualifies(#[trigger] nets[j])
                        && interface_active(packets)) by {
                        if j > 0 {
                            assert(nets[j] == rest[j - 1]);
                        }
                    }
                },
            }
        }
    }
}

/// The address shown is the first usable one: when one is found it is a
/// qualifying address of an interface that received more than a thousand
/// packets, shown as `address/prefix`, and no usable address comes before it
/// (in an earlier interface, or earlier in the same one); when none is
/// found, no interface has a usable address.
pub proof fn law_first_ip_is_first_usable(ifaces: Seq<NetworkInterface>)
    ensures
        first_ip(ifaces) matches Some(l) ==> exists|i: int, j: int|
            #![trigger ifaces[i].addresses@[j]]
            0 <= i < ifaces.len() && 0 <= j < ifaces[i].addresses@.len() && usable(ifaces[i], j) && l
                == address_label(ifaces[i].addresses@[j]) && (forall|i2: int, j2: int|
                0 <= i2 < i && 0 <= j2 < ifaces[i2].addresses@.len() ==> !usable(ifaces[i2], j2)) && (
            forall|j2: int| 0 <= j2 < j ==> !usable(ifaces[i], j2)),
        first_ip(ifaces) is None ==> forall|i: int, j: int|
            0 <= i < ifaces.len() && 0 <= j < ifaces[i].addresses@.len() ==> !usable(ifaces[i], j),
    decreases ifaces.len(),
{
    if ifaces.len() > 0 {
        let rest = ifaces.drop_first();
        law_first_ip_is_first_usable(rest);
        let head = ifaces[0];
        lemma_first_address(head.addresses@, head.total_packets_received);
        match first_address(head.addresses@, head.total_packets_received) {
            Some(l) => {
                let j = choose|j: int|
                    0 <= j < head.addresses@.len() && address_qualifies(#[trigger] head.addresses@[j])
                        && interface_active(head.total_packets_received) && l == address_label(head.addresses@[j])
                        && forall|k: int|
                        0 <= k < j ==> !(address_qualifies(#[trigger] head.addresses@[k]) && interface_active(
                            head.total_packets_received,
                        ));
                assert(usable(ifaces[0], j));
                assert forall|j2: int| 0 <= j2 < j implies !usable(ifaces[0], j2) by {
                    assert(!(address_qualifies(head.addresses@[j2]) && interface_active(head.total_packets_received)));
                }
                assert(ifaces[0].addresses@[j] == head.addresses@[j]);
            },
            None => {
                match first_ip(rest) {
                    Some(l) => {
                        let (i, j) = choose|i: int, j: int|
                            #![trigger rest[i].addresses@[j]]
                            0 <= i < rest.len() && 0 <= j < rest[i].addresses@.len() && usable(rest[i], j) && l
                                == address_label(rest[i].addresses@[j]) && (forall|i2: int, j2: int|
                                0 <= i2 < i && 0 <= j2 < rest[i2].addresses@.len() ==> !usable(rest[i2], j2))
                                && (forall|j2: int| 0 <= j2 < j ==> !usable(rest[i], j2));
                        assert(ifaces[i + 1] == rest[i]);
                        assert(ifaces[i + 1].addresses@[j] == rest[i].addresses@[j]);
                        assert forall|i2: int, j2: int|
                            0 <= i2 < i + 1 && 0 <= j2 < ifaces[i2].addresses@.len() implies !usable(ifaces[i2], j2) by {
                            if i2 == 0 {
                                assert(!(address_qualifies(head.addresses@[j2]) && interface_active(
                                    head.total_packets_received,
                                )));
                            } else {
                                assert(ifaces[i2] == rest[i2 - 1]);
                            }
                        }
                    },
                    None => {
                        assert forall|i: int, j: int|
                            0 <= i < ifaces.len() && 0 <= j < ifaces[i].addresses@.len() implies !usable(
                            ifaces[i],
                            j,
                        ) by {
                            if i == 0 {
                                assert(!(address_qualifies(head.addresses@[j]) && interface_active(
                                    head.total_packets_received,
                                )));
                            } else {
                                assert(ifaces[i] == rest[i - 1]);
                            }
                        }
                    },
                }
            },
        }
    }
}

/// The image is saved on the last eligible disk: when some disk is eligible
/// the path is `image.wim` under the mount path of an eligible disk after
/// which no disk is eligible; when none is, it is plain `image.wim`.
pub proof fn law_wim_saved_on_last_eligible_disk(disks: Seq<DiskInfo>)
    ensures
        (exists|i: int| 0 <= i < disks.len() && disk_eligible(#[trigger] disks[i])) ==> exists|i: int|
            0 <= i < disks.len() && disk_eligible(#[trigger] disks[i]) && (forall|k: int|
                i < k < disks.len() ==> !disk_eligible(#[trigger] disks[k])) && wim_save_path(disks)
                == disks[i].mount_point@ + "image.wim"@,
        (forall|i: int| 0 <= i < disks.len() ==> !disk_eligible(#[trigger] disks[i])) ==> wim_save_path(disks)
            == "image.wim"@,
    decreases disks.len(),
{
    if disks.len() > 0 {
        let init = disks.drop_last();
        law_wim_saved_on_last_eligible_disk(init);
        let n = disks.len() - 1;
        if disk_eligible(disks[n]) {
            assert(disks.last() == disks[n]);
        } else {
            assert(disks.last() == disks[n]);
            if exists|i: int| 0 <= i < disks.len() && disk_eligible(#[trigger] disks[i]) {
                let i0 = choose|i: int| 0 <= i < disks.len() && disk_eligible(#[trigger] disks[i]);
                assert(init[i0] == disks[i0]);
                let i = choose|i: int|
                    0 <= i < init.len() && disk_eligible(#[trigger] init[i]) && (forall|k: int|
                        i < k < init.len() ==> !disk_eligible(#[trigger] init[k])) && wim_save_path(init)
                        == init[i].mount_point@ + "image.wim"@;
                assert(init[i] == disks[i]);
                assert forall|k: int| i < k < disks.len() implies !disk_eligible(#[trigger] disks[k]) by {
                    if k < n {
                        assert(init[k] == disks[k]);
                    }
                }
            } else {
                assert forall|i: int| 0 <= i < init.len() implies !disk_eligible(#[trigger] init[i]) by {
                    assert(init[i] == disks[i]);
                }
            }
        }
    }
}

/// Each half of the status line depends only on its own lookup: a found
/// address fills the first half whatever became of the disk, and a found
/// disk fills the second half whatever became of the address; each lookup
/// that failed shows its own fallback.
pub proof fn law_status_bar_parts_independent(ip: Result<Seq<char>, ()>, disk: Result<Seq<char>, ()>)
    ensures
        ip matches Ok(t) ==> has_prefix(status_bar_text(ip, disk), "IP Address - "@ + t + "; First Disk - "@),
        ip is Err ==> has_prefix(status_bar_text(ip, disk), "IP Address - Undefined; First Disk - "@),
        disk matches Ok(d) ==> has_suffix(status_bar_text(ip, disk), "; First Disk - "@ + d),
        disk is Err ==> has_suffix(status_bar_text(ip, disk), "; First Disk - No disks found"@),
{
    reveal_strlit("IP Address - ");
    reveal_strlit("Undefined");
    reveal_strlit("; First Disk - ");
    reveal_strlit("No disks found");
    reveal_strlit("IP Address - Undefined; First Disk - ");
    reveal_strlit("; First Disk - No disks found");
    let a: Seq<char> = "IP Address - "@ + match ip {
        Ok(t) => t,
        Err(_) => "Undefined"@,
    } + "; First Disk - "@;
    let b: Seq<char> = match disk {
        Ok(d) => d,
        Err(_) => "No disks found"@,
    };
    let text = status_bar_text(ip, disk);
    assert(text =~= a + b);
    assert(text.subrange(0, a.len() as int) =~= a);
    let tail: Seq<char> = "; First Disk - "@ + b;
    assert(text.subrange(text.len() - tail.len(), text.len() as int) =~= tail);
    assert("IP Address - "@ + "Undefined"@ + "; First Disk - "@ =~= "IP Address - Undefined; First Disk - "@);
    assert("; First Disk - "@ + "No disks found"@ =~= "; First Disk - No disks found"@);
}

impl IpAddress {
    fn loopback(&self) -> (res: bool)
        ensures
            res == self.is_loopback(),
    {
        match self {
            IpAddress::V4(o) => o[0] == 127,
            IpAddress::V6(s) => {
                let r = s[0] == 0 && s[1] == 0 && s[2] == 0 && s[3] == 0 && s[4] == 0 && s[5] == 0
                    && s[6] == 0 && s[7] == 1;
                assert(r == (s@ =~= seq![0u16, 0, 0, 0, 0, 0, 0, 1]));
                r
            },
        }
    }

    fn multicast(&self) -> (res: bool)
        ensures
            res == self.is_multicast(),
    {
        match self {
            IpAddress::V4(o) => 224 <= o[0] && o[0] <= 239,
            IpAddress::V6(s) => s[0] >= 0xff00,
        }
    }

    fn unspecified(&self) -> (res: bool)
        ensures
            res == self.is_unspecified(),
    {
        match self {
            IpAddress::V4(o) => {
                let r = o[0] == 0 && o[1] == 0 && o[2] == 0 && o[3] == 0;
                assert(r == (o@ =~= seq![0u8, 0, 0, 0]));
                r
            },
            IpAddress::V6(s) => {
                let r = s[0] == 0 && s[1] == 0 && s[2] == 0 && s[3] == 0 && s[4] == 0 && s[5] == 0
                    && s[6] == 0 && s[7] == 0;
                assert(r == (s@ =~= seq![0u16, 0, 0, 0, 0, 0, 0, 0]));
                r
            },
        }
    }
}

fn qualifies(net: &IpNetworkInfo) -> (res: bool)
    ensures
        res == address_qualifies(*net),
{
    !net.address.loopback() && !net.address.multicast() && !net.address.unspecified()
        && !starts_with(net.text.as_str(), "169.") && !starts_with(net.text.as_str(), "fe80::")
}

impl ImagingApp {
    /// Replaces `{vendor}`, `{model}`, `{sku}` and `{serial}` in `s` with the
    /// machine's product identity, or with `NO_VENDOR_FOUND`,
    /// `NO_MODEL_FOUND`, `NO_SKU_FOUND`, `NO_SERIAL_FOUND` where it is unknown.
    pub fn sub_system_info_vars(s: &str, info: &ProductInfo) -> (res: String)
        ensures
            res@ == substitute_vars(s@, info),
    {
        let vendor: &str = match &info.vendor_name {
            Some(v) => v.as_str(),
            None => "NO_VENDOR_FOUND",
        };
        let model: &str = match &info.name {
            Some(v) => v.as_str(),
            None => "NO_MODEL_FOUND",
        };
        let sku: &str = match &info.stock_keeping_unit {
            Some(v) => v.as_str(),
            None => "NO_SKU_FOUND",
        };
        let serial: &str = match &info.serial_number {
            Some(v) => v.as_str(),
            None => "NO_SERIAL_FOUND",
        };
        proof {
            reveal_strlit("{vendor}");
            reveal_strlit("{model}");
            reveal_strlit("{sku}");
            reveal_strlit("{serial}");
        }
        let a = replace(s, "{vendor}", vendor);
        let b = replace(a.as_str(), "{model}", model);
        let c = replace(b.as_str(), "{sku}", sku);
        replace(c.as_str(), "{serial}", serial)
    }

    /// The first usable address of the machine as `address/prefix`: the first,
    /// in order, of an interface that received more than a thousand packets
    /// that is not loopback, multicast, unspecified or link-local.
    pub fn get_first_ip(interfaces: &Vec<NetworkInterface>) -> (res: Result<String, ()>)
        ensures
            match res {
                Ok(t) => first_ip(interfaces@) == Some(t@),
                Err(_) => first_ip(interfaces@) is None,
            },
    {
        let mut i: usize = 0;
        assert(interfaces@.skip(0) =~= interfaces@);
        while i < interfaces.len()
            invariant
                i <= interfaces.len(),
                first_ip(interfaces@) == first_ip(interfaces@.skip(i as int)),
            decreases interfaces.len() - i,
        {
            let iface = &interfaces[i];
            let ghost rest = interfaces@.skip(i as int);
            assert(rest[0] == *iface);
            assert(rest.drop_first() =~= interfaces@.skip(i + 1));
            let mut j: usize = 0;
            assert(iface.addresses@.skip(0) =~= iface.addresses@);
            while j < iface.addresses.len()
                invariant
                    j <= iface.addresses.len(),
                    i < interfaces.len(),
                    *iface == interfaces@[i as int],
                    first_ip(interfaces@) == first_ip(interfaces@.skip(i as int)),
                    interfaces@.skip(i as int)[0] == *iface,
                    first_address(iface.addresses@, iface.total_packets_received) == first_address(
                        iface.addresses@.skip(j as int),
                        iface.total_packets_received,
                    ),
                decreases iface.addresses.len() - j,
            {
                let net = &iface.addresses[j];
                let ghost nets = iface.addresses@.skip(j as int);
                assert(nets[0] == *net);
                assert(nets.drop_first() =~= iface.addresses@.skip(j + 1));
                if qualifies(net) && iface.total_packets_received > 1000 {
                    let mut label = net.text.clone();
                    label.append("/");
                    push_decimal(&mut label, net.prefix as u64);
                    return Ok(label);
                }
                j = j + 1;
            }
            assert(iface.addresses@.skip(j as int) =~= Seq::<IpNetworkInfo>::empty());
            i = i + 1;
        }
        assert(interfaces@.skip(i as int) =~= Seq::<NetworkInterface>::empty());
        Err(())
    }

    /// Whether a disk can take the image: fixed, writable, more than 8 GB free.
    pub fn disk_is_eligible(d: &DiskInfo) -> (res: bool)
        ensures
            res == disk_eligible(*d),
    {
        !d.is_removable && !d.is_read_only && d.available_space > 8_000_000_000
    }

    /// The first disk as `name mount size GB`, when it is eligible.
    pub fn get_disks(disks: &Vec<DiskInfo>) -> (res: Result<String, ()>)
        ensures
            match res {
                Ok(t) => disks@.len() > 0 && disk_eligible(disks@[0]) && t@ == disk_label(disks@[0]),
                Err(_) => disks@.len() == 0 || !disk_eligible(disks@[0]),
            },
    {
        if disks.len() > 0 {
            let d = &disks[0];
            if Self::disk_is_eligible(d) {
                let mut label = d.name.clone();
                label.append(" ");
                label.append(d.mount_point.as_str());
                label.append(" ");
                push_decimal(&mut label, d.total_space / 1_000_000_000);
                label.append(" GB");
                return Ok(label);
            }
        }
        Err(())
    }

    /// Where to save the downloaded image: `image.wim` under the mount path
    /// of the last eligible disk, or plain `image.wim` when none is eligible.
    pub fn locate_wim_save_space(disks: &Vec<DiskInfo>) -> (res: Result<String, ()>)
        requires
            forall|i: int|
                0 <= i < disks@.len() && disk_eligible(#[trigger] disks@[i]) ==> disks@[i].mount_point_utf8,
        ensures
            res is Ok,
            res matches Ok(p) ==> p@ == wim_save_path(disks@),
    {
        let mut found: Option<&String> = None;
        let mut i: usize = 0;
        while i < disks.len()
            invariant
                i <= disks.len(),
                match found {
                    Some(m) => last_eligible_mount(disks@.take(i as int)) == Some(m@),
                    None => last_eligible_mount(disks@.take(i as int)) is None,
                },
            decreases disks.len() - i,
        {
            assert(disks@.take(i + 1).drop_last() =~= disks@.take(i as int));
            assert(disks@.take(i + 1).last() == disks@[i as int]);
            if Self::disk_is_eligible(&disks[i]) {
                found = Some(&disks[i].mount_point);
            }
            i = i + 1;
        }
        assert(disks@.take(i as int) =~= disks@);
        let mut path = String::new();
        match found {
            Some(m) => path.append(m.as_str()),
            None => {},
        }
        path.append("image.wim");
        Ok(path)
    }

    /// The status bar line: first usable address and first disk.
    pub fn update_status_bar(first_ip: &Result<String, ()>, first_disk: &Result<String, ()>) -> (res: String)
        ensures
            res@ == status_bar_text(
                match first_ip {
                    Ok(t) => Ok(t@),
                    Err(_) => Err(()),
                },
                match first_disk {
                    Ok(t) => Ok(t@),
                    Err(_) => Err(()),
                },
            ),
    {
        let mut s = String::new();
        s.append("IP Address - ");
        match first_ip {
            Ok(t) => s.append(t.as_str()),
            Err(_) => s.append("Undefined"),
        }
        s.append("; First Disk - ");
        match first_disk {
            Ok(t) => s.append(t.as_str()),
            Err(_) => s.append("No disks found"),
        }
        s
    }
}

} // verus!
