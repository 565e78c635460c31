//! Names of the host's graphics hardware, from what the system reports.

use crate::text::{
    begins_with, chars_of, contains_char, copied, from_utf16, hex, hex_text, is_text, lines, lines_of,
    string_of, strip_back, stripped, text_of_wide, trim_back, trimmed, views, CharClass,
};
use crate::Platform;
use vstd::prelude::*;

verus! {

/// The text behind `prefix` in the first line that begins with it.
pub open spec fn behind_prefix(rows: Seq<Seq<char>>, prefix: Seq<char>) -> Option<Seq<char>>
    decreases rows.len(),
{
    if rows.len() == 0 {
        None
    } else if prefix.is_prefix_of(rows[0]) {
        Some(rows[0].skip(prefix.len() as int))
    } else {
        behind_prefix(rows.skip(1), prefix)
    }
}

fn find_behind(v: &[char], prefix: &str) -> (r: Option<Vec<char>>)
    ensures
        match r {
            Some(t) => behind_prefix(lines_of(v@), prefix@) == Some(t@),
            None => behind_prefix(lines_of(v@), prefix@) is None,
        },
{
    let rows: Vec<Vec<char>> = lines(v);
    let ghost all = lines_of(v@);
    let p: Vec<char> = chars_of(prefix);
    assert(all.skip(0) =~= all);
    for i in 0..rows.len()
        invariant
            views(rows@) == all,
            p@ == prefix@,
            behind_prefix(all.skip(i as int), prefix@) == behind_prefix(all, prefix@),
            all == lines_of(v@),
    {
        let row: &Vec<char> = &rows[i];
        assert(all.skip(i as int)[0] == row@);
        assert(all.skip(i as int).skip(1) =~= all.skip(i as int + 1));
        if begins_with(row.as_slice(), prefix) {
            let t: Vec<char> = copied(row.as_slice(), p.len(), row.len());
            assert(t@ =~= row@.skip(prefix@.len() as int));
            return Some(t);
        }
    }
    None
}

/// The texts behind a list of optional strings.
pub open spec fn texts(v: Seq<Option<String>>) -> Seq<Option<Seq<char>>> {
    v.map_values(|o: Option<String>| text_of(o))
}

pub open spec fn text_of(o: Option<String>) -> Option<Seq<char>> {
    match o {
        Some(s) => Some(s@),
        None => None,
    }
}

/// The model that an NVIDIA driver's information file names.
pub open spec fn model_of(info: Seq<char>) -> Seq<char> {
    match behind_prefix(lines_of(info), "Model:"@) {
        Some(t) => stripped(t, CharClass::White),
        None => Seq::empty(),
    }
}

/// The name of the first GPU whose information names a model. A file that
/// cannot be read ends the search.
pub open spec fn nvidia_name(infos: Seq<Option<Seq<char>>>) -> Option<Seq<char>>
    decreases infos.len(),
{
    if infos.len() == 0 {
        None
    } else {
        match infos[0] {
            None => None,
            Some(info) => if model_of(info).len() > 0 {
                Some("NVIDIA "@ + model_of(info))
            } else {
                nvidia_name(infos.skip(1))
            },
        }
    }
}

/// Names the NVIDIA GPU by the driver's information files, one entry each,
/// `None` where a file could not be read.
pub fn describe_nvidia_proc_gpu(infos: &Vec<Option<String>>) -> (r: Option<String>)
    ensures
        text_of(r) == nvidia_name(texts(infos@)),
{
    let ghost all = texts(infos@);
    assert(all.skip(0) =~= all);
    for i in 0..infos.len()
        invariant
            all == texts(infos@),
            nvidia_name(all.skip(i as int)) == nvidia_name(all),
    {
        assert(all.skip(i as int)[0] == text_of(infos@[i as int]));
        assert(all.skip(i as int).skip(1) =~= all.skip(i as int + 1));
        match &infos[i] {
            None => {
                return None;
            },
            Some(info) => {
                let v: Vec<char> = chars_of(info.as_str());
                match find_behind(v.as_slice(), "Model:") {
                    Some(t) => {
                        let model: Vec<char> = trimmed(t.as_slice(), CharClass::White);
                        if model.len() > 0 {
                            let name: String = string_of(model.as_slice());
                            return Some("NVIDIA ".to_owned().concat(name.as_str()));
                        }
                    },
                    None => {},
                }
            },
        }
    }
    None
}

/// What the kernel tells of one graphics card: its name under the class
/// directory, and its files as far as they could be read.
#[derive(Debug, Clone)]
pub struct DrmCard {
    pub name: String,
    pub vendor: Option<String>,
    pub device: Option<String>,
    pub product_name: Option<String>,
    pub product_info: Option<String>,
    pub uevent: Option<String>,
}

/// A file's text without the white space around it.
pub open spec fn file_text(o: Option<String>) -> Option<Seq<char>> {
    match o {
        Some(s) => Some(stripped(s@, CharClass::White)),
        None => None,
    }
}

pub open spec fn vendor_name(vendor: Seq<char>) -> Seq<char> {
    if vendor == "0x10de"@ {
        "NVIDIA"@
    } else if vendor == "0x1002"@ || vendor == "0x1022"@ {
        "AMD"@
    } else if vendor == "0x8086"@ {
        "Intel"@
    } else {
        "GPU"@
    }
}

/// Whether a directory entry is a card and not one of its connectors.
pub open spec fn names_card(name: Seq<char>) -> bool {
    "card"@.is_prefix_of(name) && !name.contains('-')
}

/// The product name: the name file where it can be read, else the info file,
/// where the text is not empty.
pub open spec fn product_of(card: DrmCard) -> Option<Seq<char>> {
    let named = match file_text(card.product_name) {
        Some(t) => Some(t),
        None => file_text(card.product_info),
    };
    match named {
        Some(t) if t.len() > 0 => Some(t),
        _ => None,
    }
}

/// The driver that the card's event file names, where it is not empty.
pub open spec fn driver_of(card: DrmCard) -> Option<Seq<char>> {
    match file_text(card.uevent) {
        Some(t) => match behind_prefix(lines_of(t), "DRIVER="@) {
            Some(d) if d.len() > 0 => Some(d),
            _ => None,
        },
        None => None,
    }
}

pub open spec fn ids_text(vendor: Seq<char>, device: Seq<char>) -> Seq<char> {
    "vendor="@ + vendor + ", device="@ + device + ")"@
}

/// The description of a card whose vendor file reads `vendor`.
pub open spec fn card_text(card: DrmCard, vendor: Seq<char>) -> Seq<char> {
    let device = match file_text(card.device) {
        Some(t) => t,
        None => "unknown"@,
    };
    let ids = ids_text(vendor, device);
    match product_of(card) {
        Some(p) => vendor_name(vendor) + " "@ + p + " ("@ + ids,
        None => match driver_of(card) {
            Some(d) => vendor_name(vendor) + " GPU ("@ + d + ", "@ + ids,
            None => vendor_name(vendor) + " GPU ("@ + ids,
        },
    }
}

/// The description of the first card. A card whose vendor cannot be read ends
/// the search.
pub open spec fn drm_name(cards: Seq<DrmCard>) -> Option<Seq<char>>
    decreases cards.len(),
{
    if cards.len() == 0 {
        None
    } else if !names_card(cards[0].name@) {
        drm_name(cards.skip(1))
    } else {
        match file_text(cards[0].vendor) {
            None => None,
            Some(vendor) => Some(card_text(cards[0], vendor)),
        }
    }
}

fn read_trimmed(o: &Option<String>) -> (r: Option<Vec<char>>)
    ensures
        match r {
            Some(v) => file_text(*o) == Some(v@),
            None => file_text(*o) is None,
        },
{
    match o {
        Some(s) => {
            let v: Vec<char> = chars_of(s.as_str());
            Some(trimmed(v.as_slice(), CharClass::White))
        },
        None => None,
    }
}

fn describe_card(card: &DrmCard, vendor: &[char]) -> (s: String)
    ensures
        s@ == card_text(*card, vendor@),
{
    let vendor_text: String = string_of(vendor);
    let device_text: String = match read_trimmed(&card.device) {
        Some(v) => string_of(v.as_slice()),
        None => "unknown".to_owned(),
    };
    let label: &str = if is_text(vendor, "0x10de") {
        "NVIDIA"
    } else if is_text(vendor, "0x1002") || is_text(vendor, "0x1022") {
        "AMD"
    } else if is_text(vendor, "0x8086") {
        "Intel"
    } else {
        "GPU"
    };
    let ids: String = "vendor=".to_owned().concat(vendor_text.as_str()).concat(", device=").concat(
        device_text.as_str(),
    ).concat(")");
    let named: Option<Vec<char>> = match read_trimmed(&card.product_name) {
        Some(v) => Some(v),
        None => read_trimmed(&card.product_info),
    };
    if let Some(p) = named {
        if p.len() > 0 {
            let product: String = string_of(p.as_slice());
            return label.to_owned().concat(" ").concat(product.as_str()).concat(" (").concat(
                ids.as_str(),
            );
        }
    }
    assert(product_of(*card) is None);
    if let Some(u) = read_trimmed(&card.uevent) {
        if let Some(d) = find_behind(u.as_slice(), "DRIVER=") {
            if d.len() > 0 {
                let driver: String = string_of(d.as_slice());
                return label.to_owned().concat(" GPU (").concat(driver.as_str()).concat(
                    ", ",
                ).concat(ids.as_str());
            }
        }
    }
    label.to_owned().concat(" GPU (").concat(ids.as_str())
}

/// Describes the first graphics card that the kernel lists.
pub fn describe_drm_gpu(cards: &Vec<DrmCard>) -> (r: Option<String>)
    ensures
        text_of(r) == drm_name(cards@),
{
    assert(cards@.skip(0) =~= cards@);
    for i in 0..cards.len()
        invariant
            drm_name(cards@.skip(i as int)) == drm_name(cards@),
    {
        assert(cards@.skip(i as int)[0] == cards@[i as int]);
        assert(cards@.skip(i as int).skip(1) =~= cards@.skip(i as int + 1));
        let card: &DrmCard = &cards[i];
        let name: Vec<char> = chars_of(card.name.as_str());
        if begins_with(name.as_slice(), "card") && !contains_char(name.as_slice(), '-') {
            return match read_trimmed(&card.vendor) {
                None => None,
                Some(vendor) => Some(describe_card(card, vendor.as_slice())),
            };
        }
    }
    None
}

/// The GPU of a Linux host: the NVIDIA driver's answer, or else the kernel's.
pub fn describe_linux_gpu(infos: &Vec<Option<String>>, cards: &Vec<DrmCard>) -> (r: Option<String>)
    ensures
        text_of(r) == (match nvidia_name(texts(infos@)) {
            Some(t) => Some(t),
            None => drm_name(cards@),
        }),
{
    match describe_nvidia_proc_gpu(infos) {
        Some(s) => Some(s),
        None => describe_drm_gpu(cards),
    }
}

/// What a Direct3D adapter reports of itself.
#[derive(Debug, Clone)]
pub struct AdapterDesc {
    /// The description in UTF-16, padded with zeros.
    pub description: Vec<u16>,
    pub vendor_id: u32,
    pub device_id: u32,
}

/// An adapter's description with its padding and the white space around it
/// removed, and its two numbers.
pub open spec fn adapter_text(d: AdapterDesc) -> Seq<char> {
    let name = stripped(
        strip_back(from_utf16(d.description@), CharClass::Null),
        CharClass::White,
    );
    (if name.len() == 0 {
        "Unknown GPU"@
    } else {
        name
    }) + " (vendor=0x"@ + hex(d.vendor_id as nat, 4) + ", device=0x"@ + hex(d.device_id as nat, 4)
        + ")"@
}

/// Describes the adapter behind a Direct3D device, `None` where there is no
/// device or it could not be asked.
pub fn describe_d3d11_device(desc: &Option<AdapterDesc>) -> (r: Option<String>)
    ensures
        text_of(r) == (match *desc {
            Some(d) => Some(adapter_text(d)),
            None => None,
        }),
{
    match desc {
        None => None,
        Some(d) => {
            let v: Vec<char> = text_of_wide(d.description.as_slice());
            let core: Vec<char> = trim_back(v.as_slice(), CharClass::Null);
            let name: Vec<char> = trimmed(core.as_slice(), CharClass::White);
            let shown: String = if name.len() == 0 {
                "Unknown GPU".to_owned()
            } else {
                string_of(name.as_slice())
            };
            let vendor: String = hex_text(d.vendor_id as u64, 4);
            let device: String = hex_text(d.device_id as u64, 4);
            Some(
                shown.concat(" (vendor=0x").concat(vendor.as_str()).concat(", device=0x").concat(
                    device.as_str(),
                ).concat(")"),
            )
        },
    }
}

/// What the host's GPU is called.
pub open spec fn host_gpu(
    platform: Platform,
    adapter: Option<AdapterDesc>,
    infos: Seq<Option<Seq<char>>>,
    cards: Seq<DrmCard>,
) -> Option<Seq<char>> {
    match platform {
        Platform::Windows => match adapter {
            Some(d) => Some(adapter_text(d)),
            None => None,
        },
        Platform::Linux => match nvidia_name(infos) {
            Some(t) => Some(t),
            None => drm_name(cards),
        },
        _ => None,
    }
}

/// Describes the host's GPU: on Windows by the capturing adapter, on Linux by
/// the driver's and the kernel's files, elsewhere not at all.
pub fn describe_host_gpu(
    platform: Platform,
    adapter: &Option<AdapterDesc>,
    infos: &Vec<Option<String>>,
    cards: &Vec<DrmCard>,
) -> (r: Option<String>)
    ensures
        text_of(r) == host_gpu(platform, *adapter, texts(infos@), cards@),
{
    match platform {
        Platform::Windows => describe_d3d11_device(adapter),
        Platform::Linux => describe_linux_gpu(infos, cards),
        _ => None,
    }
}

/// A Linux host is described by NVIDIA's driver where that names a model, else by the first
/// card that the kernel lists; connectors are no cards. A Windows host is described by the
/// adapter alone, and no other host is described.
pub proof fn law_who_describes_the_gpu(
    adapter: Option<AdapterDesc>,
    infos: Seq<Option<Seq<char>>>,
    info: Seq<char>,
    card: DrmCard,
    cards: Seq<DrmCard>,
)
    requires
        "card"@.is_prefix_of(card.name@) && !card.name@.contains('-'),
        card.vendor is Some,
    ensures
        model_of(info).len() > 0 ==> host_gpu(
            Platform::Linux,
            adapter,
            seq![Some(info)] + infos,
            cards,
        ) == Some("NVIDIA "@ + model_of(info)),
        host_gpu(Platform::Linux, adapter, Seq::empty(), seq![card] + cards) == Some(
            card_text(card, stripped(card.vendor->0@, CharClass::White)),
        ),
        host_gpu(Platform::Windows, adapter, infos, cards) is Some <==> adapter is Some,
        host_gpu(Platform::MacOs, adapter, infos, cards) is None,
        host_gpu(Platform::Other, adapter, infos, cards) is None,
{
    let all = seq![Some(info)] + infos;
    assert(all[0] == Some(info));
    let c = seq![card] + cards;
    assert(c[0] == card);
}

/// An entry that is no card is passed over.
pub proof fn law_connectors_are_passed_over(connector: DrmCard, cards: Seq<DrmCard>)
    requires
        !"card"@.is_prefix_of(connector.name@) || connector.name@.contains('-'),
    ensures
        drm_name(seq![connector] + cards) == drm_name(cards),
{
    let all = seq![connector] + cards;
    assert(all[0] == connector);
    assert(all.skip(1) =~= cards);
}

/// A card's description tells its maker by the vendor's number: NVIDIA's, both of AMD's, and
/// Intel's.
pub proof fn law_makers_have_their_numbers(vendor: Seq<char>)
    ensures
        vendor == "0x10de"@ ==> vendor_name(vendor) == "NVIDIA"@,
        vendor == "0x1002"@ || vendor == "0x1022"@ ==> vendor_name(vendor) == "AMD"@,
        vendor == "0x8086"@ ==> vendor_name(vendor) == "Intel"@,
        vendor != "0x10de"@ && vendor != "0x1002"@ && vendor != "0x1022"@ && vendor != "0x8086"@
            ==> vendor_name(vendor) == "GPU"@,
{
    reveal_strlit("0x10de");
    reveal_strlit("0x1002");
    reveal_strlit("0x1022");
    reveal_strlit("0x8086");
    assert("0x10de"@[4] == 'd' && "0x1002"@[4] == '0' && "0x1022"@[4] == '2' && "0x8086"@[2] == '8');
    assert("0x10de"@[2] == '1' && "0x1002"@[2] == '1' && "0x1022"@[2] == '1');
}

/// A description without a model is passed over, and one that cannot be read ends the search,
/// whatever follows it. A card whose maker cannot be read ends the search for cards.
pub proof fn law_what_cannot_be_read_ends_the_search(
    empty: Seq<char>,
    infos: Seq<Option<Seq<char>>>,
    card: DrmCard,
    cards: Seq<DrmCard>,
)
    requires
        model_of(empty).len() == 0,
        "card"@.is_prefix_of(card.name@) && !card.name@.contains('-'),
    ensures
        nvidia_name(seq![Some(empty)] + infos) == nvidia_name(infos),
        nvidia_name(seq![None] + infos) is None,
        card.vendor is None ==> drm_name(seq![card] + cards) is None,
        card.vendor is Some ==> drm_name(seq![card] + cards) == drm_name(seq![card]),
{
    let a = seq![Some(empty)] + infos;
    assert(a[0] == Some(empty));
    assert(a.skip(1) =~= infos);
    let b = seq![None] + infos;
    assert(b[0] is None);
    let c = seq![card] + cards;
    assert(c[0] == card);
    assert(seq![card][0] == card);
}

/// A card is described by its maker and its product, by its maker and its driver where it has
/// no product, and by its maker alone where it has neither; its numbers stand at the end.
pub proof fn law_cards_are_described_by_what_is_known(card: DrmCard, vendor: Seq<char>)
    ensures
        ({
            let t = card_text(card, vendor);
            &&& vendor_name(vendor).is_prefix_of(t)
            &&& card.product_name is Some && stripped(card.product_name->0@, CharClass::White).len()
                > 0 ==> (vendor_name(vendor) + " "@ + stripped(
                card.product_name->0@,
                CharClass::White,
            )).is_prefix_of(t)
            &&& (card.product_name is None && card.product_info is None) ==> (vendor_name(vendor)
                + " GPU ("@).is_prefix_of(t)
            &&& card.device is Some ==> t.skip(
                t.len() - ids_text(vendor, stripped(card.device->0@, CharClass::White)).len(),
            ) == ids_text(vendor, stripped(card.device->0@, CharClass::White))
        }),
{
    let t = card_text(card, vendor);
    let v = vendor_name(vendor);
    let device = match file_text(card.device) {
        Some(d) => d,
        None => "unknown"@,
    };
    let ids = ids_text(vendor, device);
    assert(t.subrange(0, v.len() as int) =~= v);
    assert(t.skip(t.len() - ids.len()) =~= ids);
    if card.product_name is Some {
        let p = stripped(card.product_name->0@, CharClass::White);
        if p.len() > 0 {
            let front = v + " "@ + p;
            assert(t.subrange(0, front.len() as int) =~= front);
        }
    }
    if card.product_name is None && card.product_info is None {
        let front = v + " GPU ("@;
        assert(t.subrange(0, front.len() as int) =~= front);
    }
}

} // verus!
