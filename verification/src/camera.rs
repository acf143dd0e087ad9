//! Camera sources: how a configured value is read, which device it stands for, which
//! cameras are offered, and what becomes of one poll of a running camera.

use crate::config::{CameraConfig, CameraModel, DEFAULT_RGB_CAMERA};
use crate::text::{
    after_prefix, contains_text, decimal_text, digit_run, digits_end_where_they_end, find, hex4,
    hex4_text, is_space, joined, leading_digits, lemma_first_at, lemma_nothing_to_trim,
    lemma_written_without_space, opt_string, parse_unsigned, prefix_and_rest_make_the_text, quoted,
    quoted_text, split_at_first, split_once, stands_at, starts, starts_with, str_eq, strip_prefix,
    text_place, texts_are_found_where_they_stand_first, trim, trimmed, trimming_is_done_once,
    trimming_takes_space_at_the_ends, unquote, unquoted, unsigned_value, upper_case_is_for_letters,
    upper_eq, upper_starts_with, upper_text, written_hex_reads_back, written_numbers_read_back,
};
use vstd::prelude::*;
use vstd::string::*;

verus! {

pub const PRIMARY_CAMERA_DISPLAY_NAME: &'static str = "Primary Camera";

// What the device monitor reports

/// What a device says of one of the formats that it delivers.
#[derive(Clone, Debug)]
pub struct CapsEntry {
    pub name: String,
    pub format: Option<String>,
    pub drm_format: Option<String>,
}

/// The properties of a device that tell it apart. `pipewire` tells that they come from
/// PipeWire.
#[derive(Clone, Debug)]
pub struct DeviceProps {
    pub pipewire: bool,
    pub node_name: Option<String>,
    pub object_serial: Option<String>,
    pub object_id: Option<String>,
    pub object_path: Option<String>,
    pub v4l2_path: Option<String>,
    pub device_path: Option<String>,
}

/// A video device. `usb_ids` are the vendor and product ids of its video node, where it
/// has one and it is a USB device.
#[derive(Clone, Debug)]
pub struct VideoDevice {
    pub display_name: String,
    pub props: Option<DeviceProps>,
    pub caps: Option<Vec<CapsEntry>>,
    pub usb_ids: Option<(u16, u16)>,
}

// Formats

/// A format without color.
pub open spec fn mono(format: Seq<char>) -> bool {
    let f = upper_text(trimmed(format));
    ||| starts(f, "GRAY"@)
    ||| starts(f, "GREY"@)
    ||| f == "R8"@
    ||| f == "R16"@
    ||| f == "Y8"@
    ||| f == "Y16"@
}

/// Whether a format is without color, whatever the case and the space around it.
pub fn is_mono_format(format: &str) -> (r: bool)
    ensures
        r == mono(format@),
{
    let f: &str = trim(format);
    upper_starts_with(f, "GRAY") || upper_starts_with(f, "GREY") || upper_eq(f, "R8") || upper_eq(
        f,
        "R16",
    ) || upper_eq(f, "Y8") || upper_eq(f, "Y16")
}

/// The space around a format and the case of its letters do not matter. A format without
/// color is named after gray, or is one of the two planes R and Y, eight or sixteen bits deep.
pub proof fn formats_without_color_are_known_by_name(format: Seq<char>)
    ensures
        mono(format) == mono(trimmed(format)),
        mono(format) == mono(upper_text(trimmed(format))),
        ({
            let name = upper_text(trimmed(format));
            &&& name == "R8"@ || name == "R16"@ || name == "Y8"@ || name == "Y16"@ ==> mono(format)
            &&& starts(name, "GRAY"@) || starts(name, "GREY"@) ==> mono(format)
            &&& mono(format) ==> name.len() >= 2 && (name[0] == 'G' && name[1] == 'R' || (name[0]
                == 'R' || name[0] == 'Y') && (name[1] == '8' || name[1] == '1'))
        }),
{
    trimming_is_done_once(format);
    trimming_takes_space_at_the_ends(format);
    let plain = trimmed(format);
    let name = upper_text(plain);
    if plain.len() > 0 {
        upper_case_is_for_letters(plain, 0);
        upper_case_is_for_letters(plain, plain.len() - 1);
        assert(name.last() == name[plain.len() - 1]);
        lemma_nothing_to_trim(name);
    } else {
        assert(name =~= plain);
    }
    assert(trimmed(name) == name);
    assert(upper_text(name) == name);
    reveal_strlit("GRAY");
    reveal_strlit("GREY");
    reveal_strlit("R8");
    reveal_strlit("R16");
    reveal_strlit("Y8");
    reveal_strlit("Y16");
    if starts(name, "GRAY"@) {
        assert(name.subrange(0, 4)[0] == name[0] && name.subrange(0, 4)[1] == name[1]);
    }
    if starts(name, "GREY"@) {
        assert(name.subrange(0, 4)[0] == name[0] && name.subrange(0, 4)[1] == name[1]);
    }
}

impl CapsEntry {
    /// The format that an entry stands for: for direct memory that of the memory.
    pub open spec fn format_used(self) -> Option<Seq<char>> {
        match self.format {
            None => None,
            Some(format) => if format@ == "DMA_DRM"@ {
                match self.drm_format {
                    Some(drm) => Some(drm@),
                    None => Some(format@),
                }
            } else {
                Some(format@)
            },
        }
    }

    /// The entry shows that the device delivers color: compressed pictures, or raw video
    /// in a format that is unknown or has color.
    pub open spec fn shows_color(self) -> bool {
        ||| self.name@ == "image/jpeg"@
        ||| self.name@ == "video/x-raw"@ && (self.format_used() matches Some(f) ==> !mono(f))
    }

    fn has_color(&self) -> (r: bool)
        ensures
            r == self.shows_color(),
    {
        if str_eq(self.name.as_str(), "image/jpeg") {
            return true;
        }
        if !str_eq(self.name.as_str(), "video/x-raw") {
            return false;
        }
        match &self.format {
            None => true,
            Some(format) => {
                if str_eq(format.as_str(), "DMA_DRM") {
                    match &self.drm_format {
                        Some(drm) => !is_mono_format(drm.as_str()),
                        None => !is_mono_format(format.as_str()),
                    }
                } else {
                    !is_mono_format(format.as_str())
                }
            },
        }
    }
}

/// A device with these formats delivers color: some format shows it, or none is raw video.
pub open spec fn color_formats(caps: Seq<CapsEntry>) -> bool {
    ||| exists|i: int| 0 <= i < caps.len() && (#[trigger] caps[i]).shows_color()
    ||| forall|i: int| 0 <= i < caps.len() ==> (#[trigger] caps[i]).name@ != "video/x-raw"@
}

impl VideoDevice {
    /// The device delivers color, or does not say what it delivers.
    pub open spec fn color(self) -> bool {
        match self.caps {
            None => true,
            Some(caps) => color_formats(caps@),
        }
    }

    /// The device's video node.
    pub open spec fn video_node(self) -> Option<Seq<char>> {
        match self.props {
            None => None,
            Some(props) => props.video_node(),
        }
    }

    /// Whether the device delivers color, as far as it says what it delivers.
    pub fn has_color_caps(&self) -> (r: bool)
        ensures
            r == self.color(),
    {
        match &self.caps {
            None => true,
            Some(caps) => {
                let mut saw_raw_video: bool = false;
                let mut i: usize = 0;
                while i < caps.len()
                    invariant
                        self.caps == Some(*caps),
                        i <= caps.len(),
                        forall|j: int| 0 <= j < i ==> !(#[trigger] caps@[j]).shows_color(),
                        saw_raw_video <==> exists|j: int|
                            0 <= j < i && (#[trigger] caps@[j]).name@ == "video/x-raw"@,
                    decreases caps.len() - i,
                {
                    if caps[i].has_color() {
                        assert(caps@[i as int].shows_color());
                        return true;
                    }
                    if str_eq(caps[i].name.as_str(), "video/x-raw") {
                        saw_raw_video = true;
                        assert(caps@[i as int].name@ == "video/x-raw"@);
                    }
                    i = i + 1;
                }
                !saw_raw_video
            },
        }
    }

    /// The device's video node, if it has one.
    pub fn device_video_node(&self) -> (r: Option<String>)
        ensures
            opt_string(r) == self.video_node(),
    {
        match &self.props {
            None => None,
            Some(props) => props.find_video_node(),
        }
    }
}

/// Compressed pictures, and raw video in a format that has color or is not told, make a
/// device one with color. So does saying nothing, or nothing of raw video. A device whose
/// raw video is all without color, and that has no compressed pictures, is one without.
/// Direct memory goes by the format of the memory.
pub proof fn formats_tell_the_color(device: VideoDevice, caps: Vec<CapsEntry>, i: int)
    requires
        device.caps == Some(caps),
        0 <= i < caps@.len(),
    ensures
        caps@[i].name@ == "image/jpeg"@ ==> device.color(),
        caps@[i].name@ == "video/x-raw"@ && caps@[i].format is None ==> device.color(),
        caps@[i].name@ == "video/x-raw"@ && (caps@[i].format matches Some(f) && f@ != "DMA_DRM"@
            && !mono(f@)) ==> device.color(),
        caps@[i].name@ == "video/x-raw"@ && (caps@[i].format matches Some(f) && f@ == "DMA_DRM"@)
            && (caps@[i].drm_format matches Some(d) && !mono(d@)) ==> device.color(),
        caps@[i].name@ == "video/x-raw"@ && (forall|j: int|
            0 <= j < caps@.len() ==> (#[trigger] caps@[j]).name@ != "image/jpeg"@ && (caps@[j].name@
                == "video/x-raw"@ ==> (caps@[j].format matches Some(f) && (f@ != "DMA_DRM"@
                && mono(f@) || f@ == "DMA_DRM"@ && (caps@[j].drm_format matches Some(d) && mono(
                d@,
            )))))) ==> !device.color(),
{
    assert(caps@[i].shows_color() || !caps@[i].shows_color());
}

/// A device that says nothing of its formats, or of raw video, is taken for one with color.
pub proof fn silence_is_color(device: VideoDevice)
    ensures
        device.caps is None ==> device.color(),
        device.caps matches Some(caps) ==> ((forall|j: int|
            0 <= j < caps@.len() ==> (#[trigger] caps@[j]).name@ != "video/x-raw"@)
            ==> device.color()),
{
}

/// The first of two that is there.
pub open spec fn first_of(a: Option<Seq<char>>, b: Option<Seq<char>>) -> Option<Seq<char>> {
    match a {
        Some(x) => Some(x),
        None => b,
    }
}

/// A path of a video node.
pub open spec fn video_path(path: Option<String>) -> Option<Seq<char>> {
    match path {
        Some(p) => if starts(p@, "/dev/video"@) {
            Some(p@)
        } else {
            None
        },
        None => None,
    }
}

fn copied(s: &Option<String>) -> (r: Option<String>)
    ensures
        opt_string(r) == opt_string(*s),
{
    match s {
        Some(t) => Some(t.clone()),
        None => None,
    }
}

impl DeviceProps {
    /// What PipeWire knows the device by: the first of its node name, serial, id and path
    /// that is set.
    pub open spec fn target(self) -> Option<Seq<char>> {
        first_of(
            opt_string(self.node_name),
            first_of(
                opt_string(self.object_serial),
                first_of(opt_string(self.object_id), opt_string(self.object_path)),
            ),
        )
    }

    /// The device's video node.
    pub open spec fn video_node(self) -> Option<Seq<char>> {
        first_of(video_path(self.v4l2_path), video_path(self.device_path))
    }

    /// The node that a PipeWire target stands for.
    pub open spec fn target_node(self) -> Option<Seq<char>> {
        first_of(opt_string(self.v4l2_path), video_path(self.device_path))
    }

    /// What PipeWire knows the device by.
    pub fn pipewire_target(&self) -> (r: Option<String>)
        ensures
            opt_string(r) == self.target(),
    {
        if self.node_name.is_some() {
            copied(&self.node_name)
        } else if self.object_serial.is_some() {
            copied(&self.object_serial)
        } else if self.object_id.is_some() {
            copied(&self.object_id)
        } else {
            copied(&self.object_path)
        }
    }

    fn find_video_node(&self) -> (r: Option<String>)
        ensures
            opt_string(r) == self.video_node(),
    {
        match &self.v4l2_path {
            Some(path) => {
                if starts_with(path.as_str(), "/dev/video") {
                    return Some(path.clone());
                }
            },
            None => {},
        }
        match &self.device_path {
            Some(path) => {
                if starts_with(path.as_str(), "/dev/video") {
                    Some(path.clone())
                } else {
                    None
                }
            },
            None => None,
        }
    }

    fn find_target_node(&self) -> (r: Option<String>)
        ensures
            opt_string(r) == self.target_node(),
    {
        match &self.v4l2_path {
            Some(path) => {
                return Some(path.clone());
            },
            None => {},
        }
        match &self.device_path {
            Some(path) => {
                if starts_with(path.as_str(), "/dev/video") {
                    Some(path.clone())
                } else {
                    None
                }
            },
            None => None,
        }
    }
}

/// PipeWire's name for a device is its node name if there is one, else its serial, else its
/// id, else its path.
pub proof fn targets_come_in_order(props: DeviceProps)
    ensures
        props.node_name matches Some(name) ==> props.target() == Some(name@),
        props.node_name is None ==> (props.object_serial matches Some(serial) ==> props.target()
            == Some(serial@)),
        props.node_name is None && props.object_serial is None ==> (props.object_id matches Some(id)
            ==> props.target() == Some(id@)),
        props.node_name is None && props.object_serial is None && props.object_id is None
            ==> props.target() == opt_string(props.object_path),
{
}

/// The video node of a device is a path below "/dev/video" that the device names: that of
/// the driver before that of the device. The node of a PipeWire target is the same wherever
/// the driver's path is one of a video node.
pub proof fn video_nodes_are_named_by_the_device(props: DeviceProps)
    ensures
        props.video_node() matches Some(node) ==> starts(node, "/dev/video"@) && (Some(node)
            == opt_string(props.v4l2_path) || Some(node) == opt_string(props.device_path)),
        props.v4l2_path matches Some(path) ==> starts(path@, "/dev/video"@) ==> props.video_node()
            == Some(path@) && props.target_node() == Some(path@),
        props.v4l2_path matches Some(path) ==> props.target_node() == Some(path@),
        !(props.v4l2_path matches Some(path) && starts(path@, "/dev/video"@)) ==> (
        props.device_path matches Some(path) ==> (props.video_node() is Some <==> starts(
            path@,
            "/dev/video"@,
        ))),
        props.v4l2_path is None ==> props.target_node() == props.video_node(),
{
}

// USB cameras

/// The vendor and product ids in a `usb:VVVV:PPPP` text.
pub open spec fn usb_spec(source: Seq<char>) -> Option<(u16, u16)> {
    match after_prefix(trimmed(source), "usb:"@) {
        None => None,
        Some(rest) => match split_at_first(rest, ':') {
            None => None,
            Some(parts) => match (
                unsigned_value(trimmed(parts.0), 16, 0xffff),
                unsigned_value(trimmed(parts.1), 16, 0xffff),
            ) {
                (Some(vid), Some(pid)) => Some((vid as u16, pid as u16)),
                _ => None,
            },
        },
    }
}

/// Reads a `usb:VVVV:PPPP` text (hexadecimal ids).
pub fn parse_usb_spec(source: &str) -> (r: Option<(u16, u16)>)
    ensures
        r == usb_spec(source@),
{
    match strip_prefix(trim(source), "usb:") {
        None => None,
        Some(rest) => {
            match split_once(rest, ':') {
                None => None,
                Some(parts) => {
                    let vid: Option<u64> = parse_unsigned(trim(parts.0), 16, 0xffff);
                    let pid: Option<u64> = parse_unsigned(trim(parts.1), 16, 0xffff);
                    match (vid, pid) {
                        (Some(v), Some(p)) => Some((v as u16, p as u16)),
                        _ => None,
                    }
                },
            }
        },
    }
}

/// Ids that were written as `usb:VVVV:PPPP` read back as themselves, vendor first.
pub proof fn usb_ids_read_back(vid: u16, pid: u16)
    ensures
        usb_spec("usb:"@ + hex4_text(vid) + ":"@ + hex4_text(pid)) == Some((vid, pid)),
{
    written_hex_reads_back(vid);
    written_hex_reads_back(pid);
    lemma_usb_text(hex4_text(vid), hex4_text(pid));
}

/// The space around a text with ids does not matter, and a text that does not start with
/// `usb:` has none.
pub proof fn usb_ids_follow_their_mark(source: Seq<char>)
    ensures
        usb_spec(source) == usb_spec(trimmed(source)),
        !starts(trimmed(source), "usb:"@) ==> usb_spec(source) is None,
{
    trimming_is_done_once(source);
}

/// What is between the mark and the colon is the vendor, and what follows is the product.
#[verifier::spinoff_prover]
#[verifier::rlimit(30)]
proof fn lemma_usb_text(vendor: Seq<char>, product: Seq<char>)
    requires
        vendor.len() == 4,
        product.len() == 4,
        trimmed(vendor) == vendor,
        trimmed(product) == product,
        !vendor.contains(':'),
    ensures
        ({
            let text = "usb:"@ + vendor + ":"@ + product;
            &&& trimmed(text) == text
            &&& text[0] == 'u'
            &&& text.len() == 13
            &&& usb_spec(text) == match (
                unsigned_value(vendor, 16, 0xffff),
                unsigned_value(product, 16, 0xffff),
            ) {
                (Some(vid), Some(pid)) => Some((vid as u16, pid as u16)),
                _ => None,
            }
        }),
{
    let rest = vendor + ":"@ + product;
    let text = "usb:"@ + vendor + ":"@ + product;
    assert(text[0] == 'u' && text.len() == 13 && text.last() == product.last() && text
        == "usb:"@ + rest) by {
        reveal_strlit("usb:");
        reveal_strlit(":");
        assert(text =~= "usb:"@ + rest);
    }
    assert(trimmed(text) == text) by {
        trimming_takes_space_at_the_ends(product);
        lemma_nothing_to_trim(text);
    }
    assert(after_prefix(text, "usb:"@) == Some(rest)) by {
        prefix_and_rest_make_the_text(text, "usb:"@, rest);
    }
    assert(split_at_first(rest, ':') == Some((vendor, product))) by {
        reveal_strlit(":");
        assert forall|j: int| 0 <= j < 4 implies rest[j] != ':' by {
            assert(rest[j] == vendor[j]);
            assert(vendor.contains(vendor[j]));
        }
        assert(rest[4] == ':');
        lemma_first_at(rest, ':', 4);
        assert(rest.subrange(0, 4) =~= vendor);
        assert(rest.subrange(5, rest.len() as int) =~= product);
    }
}

/// The text of a video node is free of space and no text of a USB camera.
proof fn lemma_node_text(n: u32)
    ensures
        ({
            let text = "/dev/video"@ + decimal_text(n as nat);
            &&& trimmed(text) == text
            &&& text.len() > 10
            &&& text[0] == '/'
            &&& usb_spec(text) is None
            &&& !starts(text, "usb:"@)
            &&& after_prefix(text, "/dev/video"@) == Some(decimal_text(n as nat))
        }),
{
    reveal_strlit("/dev/video");
    reveal_strlit("usb:");
    let digits = decimal_text(n as nat);
    let text = "/dev/video"@ + digits;
    lemma_written_without_space(n as nat);
    assert(text[0] == '/' && text.last() == digits.last());
    lemma_nothing_to_trim(text);
    usb_ids_follow_their_mark(text);
    assert(!starts(text, "usb:"@)) by {
        if starts(text, "usb:"@) {
            assert(text.subrange(0, 4)[0] == text[0]);
        }
    }
    prefix_and_rest_make_the_text(text, "/dev/video"@, digits);
}

/// A video node of a USB device.
#[derive(Clone, Debug, PartialEq, Eq)]
pub struct VideoNodeInfo {
    pub node: String,
    pub vid: u16,
    pub pid: u16,
    pub is_color: bool,
}

/// A video node of a USB device, its path as text.
#[verifier::ext_equal]
pub struct NodeModel {
    pub node: Seq<char>,
    pub vid: u16,
    pub pid: u16,
    pub is_color: bool,
}

impl View for VideoNodeInfo {
    type V = NodeModel;

    open spec fn view(&self) -> NodeModel {
        NodeModel { node: self.node@, vid: self.vid, pid: self.pid, is_color: self.is_color }
    }
}

/// The number of a video node.
pub open spec fn node_number(node: Seq<char>) -> Option<int> {
    match after_prefix(node, "/dev/video"@) {
        None => None,
        Some(rest) => unsigned_value(rest, 10, u32::MAX as int),
    }
}

/// The number of the node `/dev/videoN` is `N`, and nothing else has a number.
pub proof fn nodes_have_their_number(n: u32, node: Seq<char>)
    ensures
        node_number("/dev/video"@ + decimal_text(n as nat)) == Some(n as int),
        node_number(node) is Some ==> starts(node, "/dev/video"@),
{
    prefix_and_rest_make_the_text(
        "/dev/video"@ + decimal_text(n as nat),
        "/dev/video"@,
        decimal_text(n as nat),
    );
    written_numbers_read_back(n as nat, u32::MAX as int);
}

impl NodeModel {
    /// The place of a node in the order of preference: its number, last where it has none.
    pub open spec fn order(self) -> int {
        match node_number(self.node) {
            Some(n) => n,
            None => u32::MAX as int,
        }
    }

    /// The node of a device with these ids and this kind of picture.
    pub open spec fn fits(self, vid: u16, pid: u16, want_color: bool) -> bool {
        self.vid == vid && self.pid == pid && self.is_color == want_color
    }
}

/// The nodes of a list, their paths as text.
pub open spec fn node_models(nodes: Seq<VideoNodeInfo>) -> Seq<NodeModel> {
    nodes.map_values(|n: VideoNodeInfo| n@)
}

/// The first node with the lowest number among those that fit.
pub open spec fn best_node(nodes: Seq<NodeModel>, vid: u16, pid: u16, want_color: bool) -> Option<
    NodeModel,
>
    decreases nodes.len(),
{
    if nodes.len() == 0 {
        None
    } else {
        let best = best_node(nodes.drop_last(), vid, pid, want_color);
        let last = nodes.last();
        if last.fits(vid, pid, want_color) && (best matches Some(b) ==> last.order() < b.order()) {
            Some(last)
        } else {
            best
        }
    }
}

/// The chosen node fits, no node that fits has a lower number, and none is chosen only if
/// none fits: the choice does not depend on the order in which devices turn up, as long as
/// their numbers differ.
pub proof fn best_node_is_lowest(
    nodes: Seq<NodeModel>,
    vid: u16,
    pid: u16,
    want_color: bool,
)
    ensures
        match best_node(nodes, vid, pid, want_color) {
            Some(best) => {
                &&& nodes.contains(best)
                &&& best.fits(vid, pid, want_color)
                &&& forall|i: int|
                    0 <= i < nodes.len() && (#[trigger] nodes[i]).fits(vid, pid, want_color)
                        ==> best.order() <= nodes[i].order()
            },
            None => forall|i: int|
                0 <= i < nodes.len() ==> !(#[trigger] nodes[i]).fits(vid, pid, want_color),
        },
    decreases nodes.len(),
{
    if nodes.len() > 0 {
        let rest = nodes.drop_last();
        best_node_is_lowest(rest, vid, pid, want_color);
        assert forall|i: int| 0 <= i < nodes.len() implies i == nodes.len() - 1 || nodes[i]
            == #[trigger] rest[i] by {}
        match best_node(rest, vid, pid, want_color) {
            Some(b) => {
                let k = choose|k: int| 0 <= k < rest.len() && rest[k] == b;
                assert(nodes[k] == b);
            },
            None => {},
        }
        assert(nodes[nodes.len() - 1] == nodes.last());
        assert forall|i: int| 0 <= i < nodes.len() implies (i == nodes.len() - 1 || #[trigger] nodes[i]
            == rest[i]) by {}
    }
}

/// Of several nodes with the same number, or without one, the first is chosen; a node
/// without a number is chosen only if no node that fits has one below the largest.
pub proof fn best_node_is_first(nodes: Seq<NodeModel>, vid: u16, pid: u16, want_color: bool)
    ensures
        best_node(nodes, vid, pid, want_color) matches Some(best) ==> {
            &&& exists|k: int|
                0 <= k < nodes.len() && #[trigger] nodes[k] == best && forall|j: int|
                    0 <= j < k && (#[trigger] nodes[j]).fits(vid, pid, want_color) ==> best.order()
                        < nodes[j].order()
            &&& node_number(best.node) is None ==> forall|j: int|
                0 <= j < nodes.len() && (#[trigger] nodes[j]).fits(vid, pid, want_color) ==> (
                node_number(nodes[j].node) matches Some(n) ==> n >= u32::MAX)
        },
    decreases nodes.len(),
{
    best_node_is_lowest(nodes, vid, pid, want_color);
    if nodes.len() > 0 {
        let rest = nodes.drop_last();
        best_node_is_first(rest, vid, pid, want_color);
        best_node_is_lowest(rest, vid, pid, want_color);
        match (best_node(nodes, vid, pid, want_color), best_node(rest, vid, pid, want_color)) {
            (Some(best), Some(before)) => {
                let k = choose|k: int|
                    0 <= k < rest.len() && #[trigger] rest[k] == before && forall|j: int|
                        0 <= j < k && (#[trigger] rest[j]).fits(vid, pid, want_color)
                            ==> before.order() < rest[j].order();
                if nodes.last().fits(vid, pid, want_color) && nodes.last().order()
                    < before.order() {
                    assert(nodes[nodes.len() - 1] == best);
                    assert forall|j: int|
                        0 <= j < nodes.len() - 1 && (#[trigger] nodes[j]).fits(
                            vid,
                            pid,
                            want_color,
                        ) implies best.order() < nodes[j].order() by {
                        assert(rest[j] == nodes[j]);
                    }
                } else {
                    assert(nodes[k] == rest[k]);
                    assert forall|j: int|
                        0 <= j < k && (#[trigger] nodes[j]).fits(vid, pid, want_color)
                            implies best.order() < nodes[j].order() by {
                        assert(rest[j] == nodes[j]);
                    }
                }
            },
            (Some(best), None) => {
                assert(nodes[nodes.len() - 1] == best);
                assert forall|j: int|
                    0 <= j < nodes.len() - 1 && (#[trigger] nodes[j]).fits(vid, pid, want_color)
                        implies best.order() < nodes[j].order() by {
                    assert(rest[j] == nodes[j]);
                }
            },
            _ => {},
        }
    }
}

/// The number of a video node.
pub fn video_node_index(node: &str) -> (r: Option<u32>)
    ensures
        match r {
            Some(n) => node_number(node@) == Some(n as int),
            None => node_number(node@) is None,
        },
{
    match strip_prefix(node, "/dev/video") {
        None => None,
        Some(rest) => {
            match parse_unsigned(rest, 10, u32::MAX as u64) {
                Some(n) => Some(n as u32),
                None => None,
            }
        },
    }
}

fn node_order(node: &str) -> (r: u32)
    ensures
        r == (match node_number(node@) {
            Some(n) => n,
            None => u32::MAX as int,
        }),
{
    match video_node_index(node) {
        Some(n) => n,
        None => u32::MAX,
    }
}

/// The path of an optional node.
pub open spec fn node_path(node: Option<NodeModel>) -> Option<Seq<char>> {
    match node {
        Some(n) => Some(n.node),
        None => None,
    }
}

/// Picks the node matching `vid:pid` whose color-ness matches the caller (color for RGB,
/// mono for infrared), preferring the lowest-numbered node so the choice is stable across
/// boots.
pub fn select_usb_node(nodes: &[VideoNodeInfo], vid: u16, pid: u16, want_color: bool) -> (r: Option<
    String,
>)
    ensures
        opt_string(r) == node_path(best_node(node_models(nodes@), vid, pid, want_color)),
{
    let mut best: Option<usize> = None;
    let mut i: usize = 0;
    assert(node_models(nodes@).subrange(0, 0) =~= seq![]);
    while i < nodes.len()
        invariant
            i <= nodes.len(),
            match best {
                Some(k) => k < i && best_node(
                    node_models(nodes@).subrange(0, i as int),
                    vid,
                    pid,
                    want_color,
                ) == Some(nodes@[k as int]@),
                None => best_node(
                    node_models(nodes@).subrange(0, i as int),
                    vid,
                    pid,
                    want_color,
                ) is None,
            },
        decreases nodes.len() - i,
    {
        let ghost next = node_models(nodes@).subrange(0, i + 1);
        assert(next.drop_last() =~= node_models(nodes@).subrange(0, i as int));
        assert(next.last() == nodes@[i as int]@);
        if nodes[i].vid == vid && nodes[i].pid == pid && nodes[i].is_color == want_color {
            let lower: bool = match best {
                Some(k) => node_order(nodes[i].node.as_str()) < node_order(nodes[k].node.as_str()),
                None => true,
            };
            if lower {
                best = Some(i);
            }
        }
        i = i + 1;
    }
    assert(node_models(nodes@).subrange(0, i as int) =~= node_models(nodes@));
    match best {
        Some(k) => Some(nodes[k].node.clone()),
        None => None,
    }
}

/// Some device has this video node.
pub open spec fn node_seen(devices: Seq<VideoDevice>, node: Seq<char>) -> bool {
    exists|i: int| 0 <= i < devices.len() && (#[trigger] devices[i]).video_node() == Some(node)
}

/// The video nodes of USB devices, each node once, as first reported.
pub open spec fn usb_nodes(devices: Seq<VideoDevice>) -> Seq<NodeModel>
    decreases devices.len(),
{
    if devices.len() == 0 {
        seq![]
    } else {
        let before = usb_nodes(devices.drop_last());
        let device = devices.last();
        match (device.video_node(), device.usb_ids) {
            (Some(node), Some(ids)) => if node_seen(devices.drop_last(), node) {
                before
            } else {
                before.push(
                    NodeModel { node, vid: ids.0, pid: ids.1, is_color: device.color() },
                )
            },
            _ => before,
        }
    }
}

/// A node of a USB device is listed once, with the ids and the color of the device that
/// reported it first.
pub proof fn usb_nodes_are_listed_once(devices: Seq<VideoDevice>, k: int)
    requires
        0 <= k < usb_nodes(devices).len(),
    ensures
        exists|i: int|
            0 <= i < devices.len() && is_node_of(usb_nodes(devices)[k], #[trigger] devices[i])
                && !node_seen(devices.subrange(0, i), usb_nodes(devices)[k].node),
        forall|j: int|
            0 <= j < usb_nodes(devices).len() && j != k ==> (#[trigger] usb_nodes(devices)[j]).node
                != usb_nodes(devices)[k].node,
    decreases devices.len(),
{
    let rest = devices.drop_last();
    let before = usb_nodes(rest);
    let nodes = usb_nodes(devices);
    assert(rest =~= devices.subrange(0, devices.len() - 1));
    assert forall|j: int| 0 <= j < before.len() implies node_seen(
        rest,
        (#[trigger] before[j]).node,
    ) by {
        usb_nodes_are_listed_once(rest, j);
        let i = choose|i: int|
            0 <= i < rest.len() && is_node_of(before[j], #[trigger] rest[i]) && !node_seen(
                rest.subrange(0, i),
                before[j].node,
            );
        assert(rest[i].video_node() == Some(before[j].node));
    }
    if k < before.len() {
        assert(nodes[k] == before[k]);
        usb_nodes_are_listed_once(rest, k);
        let i = choose|i: int|
            0 <= i < rest.len() && is_node_of(before[k], #[trigger] rest[i]) && !node_seen(
                rest.subrange(0, i),
                before[k].node,
            );
        assert(devices[i] == rest[i]);
        assert(rest.subrange(0, i) =~= devices.subrange(0, i));
    } else {
        assert(devices[devices.len() - 1] == devices.last());
    }
    assert forall|j: int| 0 <= j < nodes.len() && j != k implies (#[trigger] nodes[j]).node
        != nodes[k].node by {
        if j < before.len() {
            assert(nodes[j] == before[j]);
        }
        if k < before.len() {
            assert(nodes[k] == before[k]);
        }
    }
}

/// Every USB device is listed under its node, unless an earlier device reported that node.
pub proof fn usb_devices_are_listed(devices: Seq<VideoDevice>, i: int)
    requires
        0 <= i < devices.len(),
        devices[i].usb_ids is Some,
        devices[i].video_node() matches Some(node) && !node_seen(devices.subrange(0, i), node),
    ensures
        exists|k: int|
            0 <= k < usb_nodes(devices).len() && is_node_of(
                #[trigger] usb_nodes(devices)[k],
                devices[i],
            ),
    decreases devices.len(),
{
    let rest = devices.drop_last();
    let before = usb_nodes(rest);
    assert(rest =~= devices.subrange(0, devices.len() - 1));
    if i < rest.len() {
        assert(rest[i] == devices[i]);
        assert(rest.subrange(0, i) =~= devices.subrange(0, i));
        usb_devices_are_listed(rest, i);
        let k = choose|k: int|
            0 <= k < before.len() && is_node_of(#[trigger] before[k], rest[i]);
        assert(usb_nodes(devices)[k] == before[k]);
    } else {
        assert(usb_nodes(devices)[before.len() as int] == usb_nodes(devices).last());
    }
}

/// The camera that is found for USB ids is a node of a device with these ids and this kind
/// of picture; none is found only if there is no such node.
pub proof fn usb_cameras_are_what_was_asked_for(
    devices: Seq<VideoDevice>,
    vid: u16,
    pid: u16,
    want_color: bool,
)
    ensures
        usb_camera_node(devices, vid, pid, want_color) matches Some(node) ==> exists|i: int|
            0 <= i < devices.len() && (#[trigger] devices[i]).video_node() == Some(node)
                && devices[i].usb_ids == Some((vid, pid)) && devices[i].color() == want_color,
        usb_camera_node(devices, vid, pid, want_color) is None ==> forall|i: int|
            0 <= i < devices.len() && (#[trigger] devices[i]).usb_ids == Some((vid, pid))
                && devices[i].color() == want_color ==> (devices[i].video_node() matches Some(node)
                ==> node_seen(devices.subrange(0, i), node)),
{
    let nodes = usb_nodes(devices);
    best_node_is_lowest(nodes, vid, pid, want_color);
    match best_node(nodes, vid, pid, want_color) {
        Some(best) => {
            let k = choose|k: int| 0 <= k < nodes.len() && nodes[k] == best;
            usb_nodes_are_listed_once(devices, k);
            let i = choose|i: int|
                0 <= i < devices.len() && is_node_of(nodes[k], #[trigger] devices[i]) && !node_seen(
                    devices.subrange(0, i),
                    nodes[k].node,
                );
            assert(devices[i].video_node() == Some(best.node));
        },
        None => {
            assert forall|i: int|
                0 <= i < devices.len() && (#[trigger] devices[i]).usb_ids == Some((vid, pid))
                    && devices[i].color() == want_color implies (devices[i].video_node()
                matches Some(node) ==> node_seen(devices.subrange(0, i), node)) by {
                if devices[i].video_node() matches Some(node) && !node_seen(
                    devices.subrange(0, i),
                    node,
                ) {
                    usb_devices_are_listed(devices, i);
                    let k = choose|k: int|
                        0 <= k < nodes.len() && is_node_of(#[trigger] nodes[k], devices[i]);
                    assert(nodes[k].fits(vid, pid, want_color));
                }
            }
        },
    }
}

/// A listed node tells of a device what the device says of itself.
pub open spec fn is_node_of(node: NodeModel, device: VideoDevice) -> bool {
    &&& device.video_node() == Some(node.node)
    &&& device.usb_ids == Some((node.vid, node.pid))
    &&& node.is_color == device.color()
}

fn has_node(devices: &[VideoDevice], end: usize, node: &str) -> (r: bool)
    requires
        end <= devices@.len(),
    ensures
        r == node_seen(devices@.subrange(0, end as int), node@),
{
    let mut i: usize = 0;
    let ghost part = devices@.subrange(0, end as int);
    while i < end
        invariant
            i <= end <= devices@.len(),
            part == devices@.subrange(0, end as int),
            forall|j: int| 0 <= j < i ==> (#[trigger] part[j]).video_node() != Some(node@),
        decreases end - i,
    {
        match devices[i].device_video_node() {
            Some(other) => {
                if str_eq(other.as_str(), node) {
                    assert(part[i as int].video_node() == Some(node@));
                    return true;
                }
            },
            None => {},
        }
        i = i + 1;
    }
    false
}

/// The video nodes of USB devices, each node once, as first reported.
pub fn usb_video_nodes(devices: &[VideoDevice]) -> (r: Vec<VideoNodeInfo>)
    ensures
        node_models(r@) == usb_nodes(devices@),
{
    let mut nodes: Vec<VideoNodeInfo> = Vec::new();
    let mut i: usize = 0;
    assert(devices@.subrange(0, 0) =~= seq![]);
    assert(node_models(nodes@) =~= seq![]);
    while i < devices.len()
        invariant
            i <= devices.len(),
            node_models(nodes@) == usb_nodes(devices@.subrange(0, i as int)),
        decreases devices.len() - i,
    {
        let ghost next = devices@.subrange(0, i + 1);
        assert(next.drop_last() =~= devices@.subrange(0, i as int));
        assert(next.last() == devices@[i as int]);
        match devices[i].device_video_node() {
            None => {},
            Some(node) => {
                if !has_node(devices, i, node.as_str()) {
                    match devices[i].usb_ids {
                        None => {},
                        Some(ids) => {
                            let info: VideoNodeInfo = VideoNodeInfo {
                                node,
                                vid: ids.0,
                                pid: ids.1,
                                is_color: devices[i].has_color_caps(),
                            };
                            assert(node_models(nodes@.push(info)) =~= node_models(nodes@).push(
                                info@,
                            ));
                            nodes.push(info);
                        },
                    }
                }
            },
        }
        i = i + 1;
    }
    assert(devices@.subrange(0, i as int) =~= devices@);
    nodes
}

/// The node of the USB camera with these ids and this kind of picture.
pub open spec fn usb_camera_node(
    devices: Seq<VideoDevice>,
    vid: u16,
    pid: u16,
    want_color: bool,
) -> Option<Seq<char>> {
    node_path(best_node(usb_nodes(devices), vid, pid, want_color))
}

/// Finds the node of the USB camera with these ids and this kind of picture.
pub fn resolve_usb_video_node(
    devices: &[VideoDevice],
    vid: u16,
    pid: u16,
    want_color: bool,
) -> (r: Option<String>)
    ensures
        opt_string(r) == usb_camera_node(devices@, vid, pid, want_color),
{
    let nodes: Vec<VideoNodeInfo> = usb_video_nodes(devices);
    select_usb_node(nodes.as_slice(), vid, pid, want_color)
}

// Configured sources

/// The configured value of a camera, trimmed; none where nothing is left.
pub open spec fn set_source(value: Seq<char>) -> Option<Seq<char>> {
    if trimmed(value).len() == 0 {
        None
    } else {
        Some(trimmed(value))
    }
}

/// A camera is set exactly if something other than space is written for it, and without the
/// space around that.
pub proof fn only_space_sets_nothing(value: Seq<char>)
    ensures
        set_source(value) is None <==> forall|i: int| 0 <= i < value.len() ==> is_space(
            #[trigger] value[i],
        ),
        set_source(value) matches Some(source) ==> source == trimmed(value) && source.len() > 0,
{
    let ends = trimming_takes_space_at_the_ends(value);
    if trimmed(value).len() > 0 {
        assert(trimmed(value)[0] == value[ends.0]);
    }
}

/// The node of the first device that PipeWire knows by `target` and that has one.
pub open spec fn pipewire_node(devices: Seq<VideoDevice>, target: Seq<char>) -> Option<Seq<char>>
    decreases devices.len(),
{
    if devices.len() == 0 {
        None
    } else {
        let here = match devices[0].props {
            Some(props) => if props.target() == Some(target) {
                props.target_node()
            } else {
                None
            },
            None => None,
        };
        first_of(here, pipewire_node(devices.drop_first(), target))
    }
}

/// The node of a PipeWire target is that of the first device with that target and a node;
/// none is found only if there is no such device.
pub proof fn pipewire_nodes_belong_to_the_target(devices: Seq<VideoDevice>, target: Seq<char>)
    ensures
        pipewire_node(devices, target) matches Some(node) ==> exists|i: int|
            0 <= i < devices.len() && has_target_node(#[trigger] devices[i], target, node)
                && forall|j: int| 0 <= j < i ==> !has_some_target_node(#[trigger] devices[j], target),
        pipewire_node(devices, target) is None ==> forall|i: int|
            0 <= i < devices.len() ==> !has_some_target_node(#[trigger] devices[i], target),
    decreases devices.len(),
{
    if devices.len() > 0 {
        let rest = devices.drop_first();
        pipewire_nodes_belong_to_the_target(rest, target);
        assert forall|j: int| 0 < j < devices.len() implies #[trigger] devices[j] == rest[j - 1] by {}
        if !has_some_target_node(devices[0], target) {
            match pipewire_node(rest, target) {
                Some(node) => {
                    let i = choose|i: int|
                        0 <= i < rest.len() && has_target_node(#[trigger] rest[i], target, node)
                            && forall|j: int|
                            0 <= j < i ==> !has_some_target_node(#[trigger] rest[j], target);
                    assert(has_target_node(devices[i + 1], target, node));
                    assert forall|j: int| 0 <= j < i + 1 implies !has_some_target_node(
                        #[trigger] devices[j],
                        target,
                    ) by {
                        if j > 0 {
                            assert(rest[j - 1] == devices[j]);
                        }
                    }
                },
                None => {
                    assert forall|i: int| 0 <= i < devices.len() implies !has_some_target_node(
                        #[trigger] devices[i],
                        target,
                    ) by {
                        if i > 0 {
                            assert(rest[i - 1] == devices[i]);
                        }
                    }
                },
            }
        } else {
            assert(has_target_node(devices[0], target, pipewire_node(devices, target)->0));
        }
    }
}

/// PipeWire knows the device by `target`, and the device has this node.
pub open spec fn has_target_node(device: VideoDevice, target: Seq<char>, node: Seq<char>) -> bool {
    device.props matches Some(props) && props.target() == Some(target) && props.target_node()
        == Some(node)
}

/// PipeWire knows the device by `target`, and the device has a node.
pub open spec fn has_some_target_node(device: VideoDevice, target: Seq<char>) -> bool {
    device.props matches Some(props) && props.target() == Some(target) && props.target_node()
        is Some
}

/// The video node that a source stands for: that of a USB camera without color, the node
/// that the text names, or the node of a PipeWire target.
pub open spec fn source_node(source: Seq<char>, devices: Seq<VideoDevice>) -> Option<Seq<char>> {
    let s = trimmed(source);
    if s.len() == 0 {
        None
    } else {
        match usb_spec(s) {
            Some(ids) => usb_camera_node(devices, ids.0, ids.1, false),
            None => match text_place(s, "/dev/video"@, 0) {
                Some(i) => {
                    let tail = s.subrange(i + 10, s.len() as int);
                    Some("/dev/video"@ + tail.subrange(0, digit_run(tail)))
                },
                None => match after_prefix(s, "pipewiresrc target-object="@) {
                    Some(rest) => pipewire_node(devices, unquoted(trimmed(rest))),
                    None => None,
                },
            },
        }
    }
}

/// A source that is a video node stands for itself, whatever devices there are.
pub proof fn nodes_stand_for_themselves(devices: Seq<VideoDevice>, n: u32)
    ensures
        source_node("/dev/video"@ + decimal_text(n as nat), devices) == Some(
            "/dev/video"@ + decimal_text(n as nat),
        ),
{
    reveal_strlit("/dev/video");
    let digits = decimal_text(n as nat);
    let text = "/dev/video"@ + digits;
    lemma_node_text(n);
    lemma_written_without_space(n as nat);
    assert(text.subrange(0, 10) =~= "/dev/video"@);
    assert(stands_at(text, "/dev/video"@, 0));
    assert(text.subrange(10, text.len() as int) =~= digits);
    assert(digits.subrange(0, digits.len() as int) =~= digits);
}

/// A source that is a USB camera stands for its node without color, and the space around a
/// source does not matter.
pub proof fn usb_sources_stand_for_their_camera(
    devices: Seq<VideoDevice>,
    vid: u16,
    pid: u16,
    source: Seq<char>,
)
    ensures
        source_node("usb:"@ + hex4_text(vid) + ":"@ + hex4_text(pid), devices) == usb_camera_node(
            devices,
            vid,
            pid,
            false,
        ),
        source_node(source, devices) == source_node(trimmed(source), devices),
        trimmed(source).len() == 0 ==> source_node(source, devices) is None,
{
    written_hex_reads_back(vid);
    written_hex_reads_back(pid);
    lemma_usb_text(hex4_text(vid), hex4_text(pid));
    trimming_is_done_once(source);
}

/// A source that is a PipeWire target stands for the target's node, also where the target is
/// in quotes.
pub proof fn targets_stand_for_their_node(devices: Seq<VideoDevice>, target: Seq<char>)
    requires
        target.len() > 0,
        !is_space(target[0]),
        !is_space(target.last()),
        !contains_text(target, "/dev/video"@),
    ensures
        source_node("pipewiresrc target-object="@ + target, devices) == pipewire_node(
            devices,
            unquoted(target),
        ),
{
    reveal_strlit("/dev/video");
    reveal_strlit("usb:");
    reveal_strlit("pipewiresrc target-object=");
    let prefix = "pipewiresrc target-object="@;
    let text = prefix + target;
    assert(text[0] == 'p' && text.last() == target.last());
    lemma_nothing_to_trim(text);
    lemma_nothing_to_trim(target);
    usb_ids_follow_their_mark(text);
    assert(!starts(text, "usb:"@)) by {
        if starts(text, "usb:"@) {
            assert(text.subrange(0, 4)[0] == text[0]);
        }
    }
    assert forall|i: int| !stands_at(text, "/dev/video"@, i) by {
        if stands_at(text, "/dev/video"@, i) {
            assert(text.subrange(i, i + 10)[0] == text[i]);
            if i >= prefix.len() {
                let at = i - prefix.len();
                assert(target.subrange(at, at + 10) =~= text.subrange(i, i + 10));
                assert(stands_at(target, "/dev/video"@, at));
            }
        }
    }
    texts_are_found_where_they_stand_first(text, "/dev/video"@, 0);
    prefix_and_rest_make_the_text(text, prefix, target);
}

/// Finding a source's node takes a look at the devices.
pub open spec fn looks_at_devices(source: Seq<char>) -> bool {
    let s = trimmed(source);
    s.len() > 0 && (usb_spec(s) is Some || (text_place(s, "/dev/video"@, 0) is None && after_prefix(
        s,
        "pipewiresrc target-object="@,
    ) is Some))
}

/// The devices make no difference to a source that names its node, or none.
pub proof fn named_nodes_need_no_devices(
    source: Seq<char>,
    devices: Seq<VideoDevice>,
    others: Seq<VideoDevice>,
)
    requires
        !looks_at_devices(source),
    ensures
        source_node(source, devices) == source_node(source, others),
{
}

/// USB cameras and PipeWire targets are looked for among the devices; video nodes are not,
/// and neither is nothing.
pub proof fn only_cameras_without_a_node_are_looked_for(
    n: u32,
    vid: u16,
    pid: u16,
    source: Seq<char>,
)
    ensures
        looks_at_devices("usb:"@ + hex4_text(vid) + ":"@ + hex4_text(pid)),
        !looks_at_devices("/dev/video"@ + decimal_text(n as nat)),
        trimmed(source).len() == 0 ==> !looks_at_devices(source),
        usb_spec(source) is None && !starts(trimmed(source), "pipewiresrc target-object="@)
            ==> !looks_at_devices(source),
        starts(trimmed(source), "pipewiresrc target-object="@) && !contains_text(
            trimmed(source),
            "/dev/video"@,
        ) ==> looks_at_devices(source),
{
    reveal_strlit("/dev/video");
    reveal_strlit("pipewiresrc target-object=");
    written_hex_reads_back(vid);
    written_hex_reads_back(pid);
    lemma_usb_text(hex4_text(vid), hex4_text(pid));
    lemma_node_text(n);
    let text = "/dev/video"@ + decimal_text(n as nat);
    assert(text.subrange(0, 10) =~= "/dev/video"@);
    assert(stands_at(text, "/dev/video"@, 0));
    usb_ids_follow_their_mark(source);
    texts_are_found_where_they_stand_first(trimmed(source), "/dev/video"@, 0);
}

/// Whether finding a source's node takes a look at the devices.
pub fn needs_devices(source: &str) -> (r: bool)
    ensures
        r == looks_at_devices(source@),
{
    let s: &str = trim(source);
    if s.is_empty() {
        return false;
    }
    if parse_usb_spec(s).is_some() {
        return true;
    }
    find(s, "/dev/video").is_none() && strip_prefix(s, "pipewiresrc target-object=").is_some()
}

fn find_pipewire_node(devices: &[VideoDevice], target: &str) -> (r: Option<String>)
    ensures
        opt_string(r) == pipewire_node(devices@, target@),
{
    let mut i: usize = 0;
    assert(devices@.subrange(0, devices@.len() as int) =~= devices@);
    while i < devices.len()
        invariant
            i <= devices.len(),
            pipewire_node(devices@, target@) == pipewire_node(
                devices@.subrange(i as int, devices@.len() as int),
                target@,
            ),
        decreases devices.len() - i,
    {
        assert(devices@.subrange(i as int, devices@.len() as int).drop_first()
            =~= devices@.subrange(i + 1, devices@.len() as int));
        match &devices[i].props {
            Some(props) => {
                match props.pipewire_target() {
                    Some(t) => {
                        if str_eq(t.as_str(), target) {
                            match props.find_target_node() {
                                Some(node) => {
                                    return Some(node);
                                },
                                None => {},
                            }
                        }
                    },
                    None => {},
                }
            },
            None => {},
        }
        i = i + 1;
    }
    None
}

/// Finds the video node that a source stands for among the given devices.
pub fn resolve_node(source: &str, devices: &[VideoDevice]) -> (r: Option<String>)
    ensures
        opt_string(r) == source_node(source@, devices@),
{
    let s: &str = trim(source);
    if s.is_empty() {
        return None;
    }
    match parse_usb_spec(s) {
        Some(ids) => {
            return resolve_usb_video_node(devices, ids.0, ids.1, false);
        },
        None => {},
    }
    proof {
        reveal_strlit("/dev/video");
    }
    match find(s, "/dev/video") {
        Some(i) => {
            let end: usize = s.unicode_len();
            let tail: &str = s.substring_char(i + 10, end);
            let n: usize = leading_digits(tail);
            return Some(joined("/dev/video", tail.substring_char(0, n)));
        },
        None => {},
    }
    match strip_prefix(s, "pipewiresrc target-object=") {
        Some(rest) => find_pipewire_node(devices, unquote(trim(rest))),
        None => None,
    }
}

/// The camera to use.
#[derive(Clone, Debug, PartialEq, Eq)]
pub enum CameraKind {
    Rgb { source: String },
    Ir { source: String, node: String },
}

/// The configured cameras, empty where there is none.
#[derive(Clone, Debug)]
pub struct ConfiguredCameraSources {
    pub rgb: String,
    pub ir: String,
    pub ir_node: String,
}

/// A text, or an empty one.
pub open spec fn or_nothing(s: Option<Seq<char>>) -> Seq<char> {
    match s {
        Some(t) => t,
        None => seq![],
    }
}

fn text_or_nothing(s: Option<String>) -> (r: String)
    ensures
        r@ == or_nothing(opt_string(s)),
{
    match s {
        Some(t) => t,
        None => {
            let r: String = String::new();
            assert(r@ =~= seq![]);
            r
        },
    }
}

/// The infrared camera and its node, if one is configured. An unknown node is empty.
pub fn resolve_ir_source(cameras: &CameraConfig, devices: &[VideoDevice]) -> (r: Option<
    (String, String),
>)
    ensures
        match r {
            Some(ir) => set_source(cameras@.ir) == Some(ir.0@) && ir.1@ == or_nothing(
                source_node(trimmed(cameras@.ir), devices@),
            ),
            None => set_source(cameras@.ir) is None,
        },
{
    let ir: &str = trim(cameras.ir.as_str());
    if ir.is_empty() {
        None
    } else {
        let node: String = text_or_nothing(resolve_node(ir, devices));
        Some((ir.to_owned(), node))
    }
}

/// The RGB camera, if one is configured.
pub fn resolve_rgb_source(cameras: &CameraConfig) -> (r: Option<String>)
    ensures
        opt_string(r) == set_source(cameras@.rgb),
{
    let rgb: &str = trim(cameras.rgb.as_str());
    if rgb.is_empty() {
        None
    } else {
        Some(rgb.to_owned())
    }
}

/// The configured cameras, empty where there is none.
pub fn resolve_configured_sources(cameras: &CameraConfig, devices: &[VideoDevice]) -> (r:
    ConfiguredCameraSources)
    ensures
        r.rgb@ == or_nothing(set_source(cameras@.rgb)),
        r.ir@ == or_nothing(set_source(cameras@.ir)),
        r.rgb@ == trimmed(cameras.rgb@),
        r.ir@ == trimmed(cameras.ir@),
        r.ir@.len() == 0 ==> r.ir_node@.len() == 0,
        r.ir_node@ == (if set_source(cameras@.ir) is None {
            seq![]
        } else {
            or_nothing(source_node(trimmed(cameras@.ir), devices@))
        }),
{
    let rgb: String = text_or_nothing(resolve_rgb_source(cameras));
    match resolve_ir_source(cameras, devices) {
        Some(ir) => ConfiguredCameraSources { rgb, ir: ir.0, ir_node: ir.1 },
        None => {
            let ir: String = String::new();
            let ir_node: String = String::new();
            assert(ir@ =~= seq![] && ir_node@ =~= seq![]);
            ConfiguredCameraSources { rgb, ir, ir_node }
        },
    }
}

/// The source to capture from and whether it is infrared: the RGB camera, else the
/// infrared one, else the default.
pub open spec fn preferred(cameras: CameraModel) -> (Seq<char>, bool) {
    match set_source(cameras.rgb) {
        Some(rgb) => (rgb, false),
        None => match set_source(cameras.ir) {
            Some(ir) => (ir, true),
            None => (DEFAULT_RGB_CAMERA@, false),
        },
    }
}

/// The RGB camera is captured from wherever one is set, the infrared one only where no RGB
/// camera is, and the default where neither is.
pub proof fn color_is_preferred(cameras: CameraModel)
    ensures
        trimmed(cameras.rgb).len() > 0 ==> preferred(cameras) == (trimmed(cameras.rgb), false),
        trimmed(cameras.rgb).len() == 0 && trimmed(cameras.ir).len() > 0 ==> preferred(cameras) == (
            trimmed(cameras.ir),
            true,
        ),
        trimmed(cameras.rgb).len() == 0 && trimmed(cameras.ir).len() == 0 ==> preferred(cameras)
            == ("primary"@, false),
{
}

/// The source to capture from, and whether it is infrared.
pub fn preferred_capture_source(cameras: &CameraConfig) -> (r: (String, bool))
    ensures
        (r.0@, r.1) == preferred(cameras@),
{
    match resolve_rgb_source(cameras) {
        Some(rgb) => (rgb, false),
        None => {
            let ir: &str = trim(cameras.ir.as_str());
            if ir.is_empty() {
                (DEFAULT_RGB_CAMERA.to_owned(), false)
            } else {
                (ir.to_owned(), true)
            }
        },
    }
}

/// The camera to use: the infrared one if one is configured, else the RGB one or the
/// default.
pub fn resolve_source(cameras: &CameraConfig, devices: &[VideoDevice]) -> (r: (String, CameraKind))
    ensures
        match set_source(cameras@.ir) {
            Some(ir) => r.0@ == ir && (r.1 matches CameraKind::Ir { source, node } && source@ == ir
                && node@ == or_nothing(source_node(ir, devices@))),
            None => {
                let rgb = match set_source(cameras@.rgb) {
                    Some(rgb) => rgb,
                    None => DEFAULT_RGB_CAMERA@,
                };
                r.0@ == rgb && (r.1 matches CameraKind::Rgb { source } && source@ == rgb)
            },
        },
        r.1 is Ir <==> trimmed(cameras.ir@).len() > 0,
        r.1 is Ir ==> r.0@ == trimmed(cameras.ir@),
        r.1 is Rgb && trimmed(cameras.rgb@).len() > 0 ==> r.0@ == trimmed(cameras.rgb@),
        r.1 is Rgb && trimmed(cameras.rgb@).len() == 0 ==> r.0@ == "primary"@,
{
    match resolve_ir_source(cameras, devices) {
        Some(ir) => {
            let source: String = ir.0.clone();
            (ir.0, CameraKind::Ir { source, node: ir.1 })
        },
        None => {
            let rgb: String = match resolve_rgb_source(cameras) {
                Some(rgb) => rgb,
                None => DEFAULT_RGB_CAMERA.to_owned(),
            };
            let source: String = rgb.clone();
            (rgb, CameraKind::Rgb { source })
        },
    }
}

// Opening a camera

/// A source element of the capture pipeline, or a request to resolve a USB VID:PID to a
/// concrete node at open time.
#[derive(Clone, Debug, PartialEq, Eq)]
pub enum SourceElement {
    Element(String),
    ResolveUsb { vid: u16, pid: u16, want_color: bool },
}

/// What a source becomes.
pub enum ElementModel {
    Element(Seq<char>),
    ResolveUsb { vid: u16, pid: u16, want_color: bool },
    Empty,
    BadUsb(Seq<char>),
    BadNode(Seq<char>),
    NoUsbCamera { vid: u16, pid: u16, want_color: bool },
}

/// Why a camera cannot be opened.
#[derive(Clone, Debug)]
pub enum CameraError {
    EmptySource,
    InvalidUsb(String),
    InvalidNode(String),
    NoUsbCamera { vid: u16, pid: u16, want_color: bool },
}

/// A text of one or more decimal digits.
pub open spec fn all_digits(s: Seq<char>) -> bool {
    s.len() > 0 && digit_run(s) == s.len()
}

/// What a configured source becomes: the default is PipeWire, a video node and a USB
/// camera go straight to the kernel's driver, anything else is an element as it stands.
pub open spec fn element_of(source: Seq<char>, want_color: bool) -> ElementModel {
    let s = trimmed(source);
    if s.len() == 0 {
        ElementModel::Empty
    } else if s == DEFAULT_RGB_CAMERA@ {
        ElementModel::Element("pipewiresrc"@)
    } else {
        match usb_spec(s) {
            Some(ids) => ElementModel::ResolveUsb { vid: ids.0, pid: ids.1, want_color },
            None => if starts(s, "usb:"@) {
                ElementModel::BadUsb(s)
            } else {
                match after_prefix(s, "/dev/video"@) {
                    Some(number) => if all_digits(number) {
                        ElementModel::Element("v4l2src device="@ + s)
                    } else {
                        ElementModel::BadNode(s)
                    },
                    None => ElementModel::Element(s),
                }
            },
        }
    }
}

/// What the kinds of sources become: the default is PipeWire's own source, a video node is
/// read by the kernel's driver, a USB camera is looked up by its ids and for the kind of
/// picture asked for. The space around a source does not matter.
pub proof fn sources_become_elements(
    source: Seq<char>,
    n: u32,
    vid: u16,
    pid: u16,
    want_color: bool,
)
    ensures
        element_of("primary"@, want_color) == ElementModel::Element("pipewiresrc"@),
        element_of("/dev/video"@ + decimal_text(n as nat), want_color) == ElementModel::Element(
            "v4l2src device=/dev/video"@ + decimal_text(n as nat),
        ),
        element_of("usb:"@ + hex4_text(vid) + ":"@ + hex4_text(pid), want_color)
            == (ElementModel::ResolveUsb { vid, pid, want_color }),
        element_of(source, want_color) == element_of(trimmed(source), want_color),
        element_of(source, want_color) is Empty <==> trimmed(source).len() == 0,
{
    reveal_strlit("primary");
    reveal_strlit("/dev/video");
    reveal_strlit("v4l2src device=");
    reveal_strlit("v4l2src device=/dev/video");
    lemma_nothing_to_trim("primary"@);
    assert("primary"@[0] == 'p');
    usb_ids_follow_their_mark("primary"@);
    let digits = decimal_text(n as nat);
    let text = "/dev/video"@ + digits;
    lemma_node_text(n);
    lemma_written_without_space(n as nat);
    assert("v4l2src device="@ + text =~= "v4l2src device=/dev/video"@ + digits);
    written_hex_reads_back(vid);
    written_hex_reads_back(pid);
    lemma_usb_text(hex4_text(vid), hex4_text(pid));
    trimming_is_done_once(source);
}

/// A source that starts as a USB camera and has no ids is refused, and so is one that starts
/// as a video node and does not end in a number; both are shown without the space around
/// them. Any other source is taken as it is written.
pub proof fn malformed_sources_are_refused(source: Seq<char>, want_color: bool)
    ensures
        starts(trimmed(source), "usb:"@) ==> (usb_spec(source) is None <==> element_of(
            source,
            want_color,
        ) == ElementModel::BadUsb(trimmed(source))),
        starts(trimmed(source), "/dev/video"@) ==> ((exists|i: int|
            10 <= i < trimmed(source).len() && !('0' <= #[trigger] trimmed(source)[i] <= '9'))
            || trimmed(source).len() == 10 <==> element_of(source, want_color)
            == ElementModel::BadNode(trimmed(source))),
        trimmed(source).len() > 0 && trimmed(source) != "primary"@ && !starts(
            trimmed(source),
            "usb:"@,
        ) && !starts(trimmed(source), "/dev/video"@) ==> element_of(source, want_color)
            == ElementModel::Element(trimmed(source)),
{
    reveal_strlit("primary");
    reveal_strlit("usb:");
    reveal_strlit("/dev/video");
    let text = trimmed(source);
    usb_ids_follow_their_mark(source);
    assert("primary"@[0] == 'p');
    if starts(text, "usb:"@) {
        assert(text.subrange(0, 4)[0] == text[0]);
    }
    if starts(text, "/dev/video"@) {
        assert(text.subrange(0, 10)[0] == text[0]);
        let number = text.subrange(10, text.len() as int);
        digits_end_where_they_end(number);
        let run = digit_run(number);
        if run < number.len() {
            assert(text[10 + run] == number[run]);
        } else {
            assert forall|i: int| 10 <= i < text.len() implies '0' <= #[trigger] text[i] <= '9' by {
                assert(number[i - 10] == text[i]);
            }
        }
    }
}

/// The model of what reading a source gave.
pub open spec fn element_model(r: Result<SourceElement, CameraError>) -> ElementModel {
    match r {
        Ok(SourceElement::Element(e)) => ElementModel::Element(e@),
        Ok(SourceElement::ResolveUsb { vid, pid, want_color }) => ElementModel::ResolveUsb {
            vid,
            pid,
            want_color,
        },
        Err(CameraError::InvalidUsb(s)) => ElementModel::BadUsb(s@),
        Err(CameraError::InvalidNode(s)) => ElementModel::BadNode(s@),
        Err(CameraError::EmptySource) => ElementModel::Empty,
        Err(CameraError::NoUsbCamera { vid, pid, want_color }) => ElementModel::NoUsbCamera {
            vid,
            pid,
            want_color,
        },
    }
}

/// Reads a configured source. `want_color` picks the color node for RGB and the mono node
/// for infrared when a USB camera has more than one node.
pub fn classify_source(source: &str, want_color: bool) -> (r: Result<SourceElement, CameraError>)
    ensures
        element_model(r) == element_of(source@, want_color),
{
    let s: &str = trim(source);
    if s.is_empty() {
        return Err(CameraError::EmptySource);
    }
    if str_eq(s, DEFAULT_RGB_CAMERA) {
        return Ok(SourceElement::Element("pipewiresrc".to_owned()));
    }
    match parse_usb_spec(s) {
        Some(ids) => {
            return Ok(SourceElement::ResolveUsb { vid: ids.0, pid: ids.1, want_color });
        },
        None => {},
    }
    if starts_with(s, "usb:") {
        return Err(CameraError::InvalidUsb(s.to_owned()));
    }
    match strip_prefix(s, "/dev/video") {
        Some(number) => {
            if !number.is_empty() && leading_digits(number) == number.unicode_len() {
                Ok(SourceElement::Element(joined("v4l2src device=", s)))
            } else {
                Err(CameraError::InvalidNode(s.to_owned()))
            }
        },
        None => Ok(SourceElement::Element(s.to_owned())),
    }
}

impl CameraError {
    /// The message that the error is shown with.
    pub open spec fn message_text(self) -> Seq<char> {
        match self {
            CameraError::EmptySource =>
                "camera source cannot be empty; use \"primary\", \"/dev/video<n>\", \"usb:VVVV:PPPP\", or a GStreamer source"@,
            CameraError::InvalidUsb(s) => "invalid USB camera spec "@ + quoted_text(s@)
                + "; expected usb:VVVV:PPPP (hex VID:PID)"@,
            CameraError::InvalidNode(s) => "invalid V4L2 camera node "@ + quoted_text(s@)
                + "; expected /dev/video<number>"@,
            CameraError::NoUsbCamera { vid, pid, want_color } => "no "@ + (if want_color {
                "color"@
            } else {
                "IR"@
            }) + " camera found for USB "@ + hex4_text(vid) + ":"@ + hex4_text(pid),
        }
    }

    /// The message that the error is shown with.
    pub fn message(&self) -> (r: String)
        ensures
            r@ == self.message_text(),
    {
        match self {
            CameraError::EmptySource =>
                "camera source cannot be empty; use \"primary\", \"/dev/video<n>\", \"usb:VVVV:PPPP\", or a GStreamer source".to_owned(),
            CameraError::InvalidUsb(s) => {
                let shown: String = quoted(s.as_str());
                let mut message: String = joined("invalid USB camera spec ", shown.as_str());
                message.append("; expected usb:VVVV:PPPP (hex VID:PID)");
                message
            },
            CameraError::InvalidNode(s) => {
                let shown: String = quoted(s.as_str());
                let mut message: String = joined("invalid V4L2 camera node ", shown.as_str());
                message.append("; expected /dev/video<number>");
                message
            },
            CameraError::NoUsbCamera { vid, pid, want_color } => {
                let kind: &str = if *want_color {
                    "color"
                } else {
                    "IR"
                };
                let mut message: String = joined("no ", kind);
                message.append(" camera found for USB ");
                let v: String = hex4(*vid);
                message.append(v.as_str());
                message.append(":");
                let p: String = hex4(*pid);
                message.append(p.as_str());
                message
            },
        }
    }
}

/// The message about a camera shows the source that was refused, or the ids that no camera
/// has, vendor first, and the kind of picture that was wanted.
pub proof fn messages_show_the_source(error: CameraError)
    ensures
        error matches CameraError::InvalidUsb(source) ==> contains_text(
            error.message_text(),
            quoted_text(source@),
        ) && starts(error.message_text(), "invalid USB camera"@),
        error matches CameraError::InvalidNode(source) ==> contains_text(
            error.message_text(),
            quoted_text(source@),
        ) && starts(error.message_text(), "invalid V4L2 camera"@),
        error matches CameraError::NoUsbCamera { vid, pid, want_color } ==> stands_at(
            error.message_text(),
            hex4_text(vid) + ":"@ + hex4_text(pid),
            error.message_text().len() - 9,
        ) && starts(
            error.message_text(),
            if want_color {
                "no color camera"@
            } else {
                "no IR camera"@
            },
        ),
{
    reveal_strlit("invalid USB camera spec ");
    reveal_strlit("invalid USB camera");
    reveal_strlit("invalid V4L2 camera node ");
    reveal_strlit("invalid V4L2 camera");
    reveal_strlit("no ");
    reveal_strlit("color");
    reveal_strlit("IR");
    reveal_strlit(" camera found for USB ");
    reveal_strlit(":");
    reveal_strlit("no color camera");
    reveal_strlit("no IR camera");
    let text = error.message_text();
    match error {
        CameraError::EmptySource => {},
        CameraError::InvalidUsb(source) => {
            let shown = quoted_text(source@);
            assert(text.subrange(24, 24 + shown.len() as int) =~= shown);
            assert(stands_at(text, shown, 24));
            assert(text.subrange(0, 18) =~= "invalid USB camera"@);
        },
        CameraError::InvalidNode(source) => {
            let shown = quoted_text(source@);
            assert(text.subrange(25, 25 + shown.len() as int) =~= shown);
            assert(stands_at(text, shown, 25));
            assert(text.subrange(0, 19) =~= "invalid V4L2 camera"@);
        },
        CameraError::NoUsbCamera { vid, pid, want_color } => {
            let ids = hex4_text(vid) + ":"@ + hex4_text(pid);
            assert(text.subrange(text.len() - 9, text.len() as int) =~= ids);
            if want_color {
                assert(text.subrange(0, 15) =~= "no color camera"@);
            } else {
                assert(text.subrange(0, 12) =~= "no IR camera"@);
            }
        },
    }
}

/// The source element that a read source leads to.
pub open spec fn opened_element(element: SourceElement, devices: Seq<VideoDevice>) -> Option<
    Seq<char>,
> {
    match element {
        SourceElement::Element(e) => Some(e@),
        SourceElement::ResolveUsb { vid, pid, want_color } => match usb_camera_node(
            devices,
            vid,
            pid,
            want_color,
        ) {
            Some(node) => Some("v4l2src device="@ + node),
            None => None,
        },
    }
}

/// An element is opened as it is. A USB camera is opened by the kernel's driver at the node
/// found for its ids and its kind of picture, and not at all where there is none.
pub proof fn elements_are_opened_as_read(
    element: String,
    vid: u16,
    pid: u16,
    want_color: bool,
    devices: Seq<VideoDevice>,
)
    ensures
        opened_element(SourceElement::Element(element), devices) == Some(element@),
        ({
            let opened = opened_element(
                SourceElement::ResolveUsb { vid, pid, want_color },
                devices,
            );
            let node = usb_camera_node(devices, vid, pid, want_color);
            &&& opened is Some <==> node is Some
            &&& opened matches Some(text) ==> after_prefix(text, "v4l2src device="@) == node
        }),
{
    match usb_camera_node(devices, vid, pid, want_color) {
        Some(node) => {
            prefix_and_rest_make_the_text("v4l2src device="@ + node, "v4l2src device="@, node);
        },
        None => {},
    }
}

/// Turns a read source into a source element, looking a USB camera up among the devices.
pub fn open_element(element: SourceElement, devices: &[VideoDevice]) -> (r: Result<
    String,
    CameraError,
>)
    ensures
        match r {
            Ok(e) => opened_element(element, devices@) == Some(e@),
            Err(error) => opened_element(element, devices@) is None && (element
                matches SourceElement::ResolveUsb { vid, pid, want_color } && error
                == (CameraError::NoUsbCamera { vid, pid, want_color })),
        },
{
    match element {
        SourceElement::Element(e) => Ok(e),
        SourceElement::ResolveUsb { vid, pid, want_color } => {
            match resolve_usb_video_node(devices, vid, pid, want_color) {
                Some(node) => Ok(joined("v4l2src device=", node.as_str())),
                None => Err(CameraError::NoUsbCamera { vid, pid, want_color }),
            }
        },
    }
}

/// The description of the capture pipeline around a source element.
pub fn pipeline_description(element: &str) -> (r: String)
    ensures
        r@ == element@
            + " ! video/x-raw,pixel-aspect-ratio=1/1; image/jpeg ! decodebin ! videoconvert ! videoscale ! appsink name=gaze_sink"@,
{
    joined(
        element,
        " ! video/x-raw,pixel-aspect-ratio=1/1; image/jpeg ! decodebin ! videoconvert ! videoscale ! appsink name=gaze_sink",
    )
}

// Listing cameras

/// The choices of a list, as text: the name of a camera and the source it stands for.
pub open spec fn choice_models(choices: Seq<(String, String)>) -> Seq<(Seq<char>, Seq<char>)> {
    choices.map_values(|c: (String, String)| (c.0@, c.1@))
}

/// The source that a device is offered under: PipeWire devices of the wanted kind that
/// PipeWire knows by something.
pub open spec fn offered_source(device: VideoDevice, mono_only: bool) -> Option<Seq<char>> {
    match device.props {
        Some(props) => if props.pipewire && device.color() != mono_only {
            match props.target() {
                Some(target) => Some("pipewiresrc target-object="@ + target),
                None => None,
            }
        } else {
            None
        },
        None => None,
    }
}

/// Some choice stands for `source`.
pub open spec fn has_source(choices: Seq<(Seq<char>, Seq<char>)>, source: Seq<char>) -> bool {
    exists|i: int| 0 <= i < choices.len() && (#[trigger] choices[i]).1 == source
}

/// The cameras offered: the default first unless only infrared cameras are asked for, then
/// each device that is offered under a source that none before it has.
pub open spec fn offered(devices: Seq<VideoDevice>, mono_only: bool) -> Seq<(Seq<char>, Seq<char>)>
    decreases devices.len(),
{
    if devices.len() == 0 {
        if mono_only {
            seq![]
        } else {
            seq![(PRIMARY_CAMERA_DISPLAY_NAME@, DEFAULT_RGB_CAMERA@)]
        }
    } else {
        let before = offered(devices.drop_last(), mono_only);
        match offered_source(devices.last(), mono_only) {
            Some(source) => if has_source(before, source) {
                before
            } else {
                before.push((devices.last().display_name@, source))
            },
            None => before,
        }
    }
}

/// No two choices stand for the same source; the default camera leads the list of all
/// cameras; every device of the wanted kind is offered.
pub proof fn offered_cameras_are_distinct(devices: Seq<VideoDevice>, mono_only: bool)
    ensures
        forall|i: int, j: int|
            0 <= i < j < offered(devices, mono_only).len() ==> (#[trigger] offered(
                devices,
                mono_only,
            )[i]).1 != (#[trigger] offered(devices, mono_only)[j]).1,
        !mono_only ==> offered(devices, mono_only).len() > 0 && offered(devices, mono_only)[0] == (
            PRIMARY_CAMERA_DISPLAY_NAME@,
            DEFAULT_RGB_CAMERA@,
        ),
        forall|i: int|
            0 <= i < devices.len() ==> (offered_source(#[trigger] devices[i], mono_only)
                matches Some(source) ==> has_source(offered(devices, mono_only), source)),
    decreases devices.len(),
{
    if devices.len() > 0 {
        let rest = devices.drop_last();
        offered_cameras_are_distinct(rest, mono_only);
        let before = offered(rest, mono_only);
        let now = offered(devices, mono_only);
        assert(forall|i: int| 0 <= i < before.len() ==> now[i] == before[i]);
        assert forall|i: int| 0 <= i < devices.len() implies (offered_source(
            #[trigger] devices[i],
            mono_only,
        ) matches Some(source) ==> has_source(now, source)) by {
            match offered_source(devices[i], mono_only) {
                Some(source) => {
                    if i < rest.len() {
                        assert(rest[i] == devices[i]);
                        assert(has_source(before, source));
                        let k = choose|k: int|
                            0 <= k < before.len() && (#[trigger] before[k]).1 == source;
                        assert(now[k].1 == source);
                    } else if has_source(before, source) {
                        let k = choose|k: int|
                            0 <= k < before.len() && (#[trigger] before[k]).1 == source;
                        assert(now[k].1 == source);
                    } else {
                        assert(now[before.len() as int].1 == source);
                    }
                },
                None => {},
            }
        }
    }
}

/// A device is offered among the cameras with color or among those without, never in both
/// lists: in one of them exactly if it is PipeWire's and PipeWire has a name for it, and
/// under that name.
pub proof fn devices_are_offered_in_one_list(device: VideoDevice)
    ensures
        offered_source(device, true) is None || offered_source(device, false) is None,
        device.color() ==> offered_source(device, true) is None,
        !device.color() ==> offered_source(device, false) is None,
        offered_source(device, !device.color()) is Some <==> (device.props matches Some(props)
            && props.pipewire && props.target() is Some),
        offered_source(device, !device.color()) matches Some(source) ==> (device.props
            matches Some(props) && (props.target() matches Some(target) && source
            == "pipewiresrc target-object="@ + target)),
{
}

/// Every camera that is offered is the default or a device, under the name of the first
/// device that has its source.
pub proof fn offered_cameras_are_devices(devices: Seq<VideoDevice>, mono_only: bool, k: int)
    requires
        0 <= k < offered(devices, mono_only).len(),
    ensures
        ({
            let choice = offered(devices, mono_only)[k];
            ||| !mono_only && k == 0 && choice == ("Primary Camera"@, "primary"@)
            ||| exists|i: int|
                0 <= i < devices.len() && offered_source(#[trigger] devices[i], mono_only) == Some(
                    choice.1,
                ) && devices[i].display_name@ == choice.0 && forall|j: int|
                    0 <= j < i ==> offered_source(#[trigger] devices[j], mono_only) != Some(
                        choice.1,
                    )
        }),
    decreases devices.len(),
{
    if devices.len() > 0 {
        let rest = devices.drop_last();
        let before = offered(rest, mono_only);
        let choice = offered(devices, mono_only)[k];
        offered_cameras_are_distinct(rest, mono_only);
        assert forall|j: int| 0 <= j < rest.len() implies #[trigger] rest[j] == devices[j] by {}
        if k < before.len() {
            assert(choice == before[k]);
            offered_cameras_are_devices(rest, mono_only, k);
            if exists|i: int|
                0 <= i < rest.len() && offered_source(#[trigger] rest[i], mono_only) == Some(
                    choice.1,
                ) && rest[i].display_name@ == choice.0 && forall|j: int|
                    0 <= j < i ==> offered_source(#[trigger] rest[j], mono_only) != Some(
                        choice.1,
                    ) {
                let i = choose|i: int|
                    0 <= i < rest.len() && offered_source(#[trigger] rest[i], mono_only) == Some(
                        choice.1,
                    ) && rest[i].display_name@ == choice.0 && forall|j: int|
                        0 <= j < i ==> offered_source(#[trigger] rest[j], mono_only) != Some(
                            choice.1,
                        );
                assert(devices[i] == rest[i]);
                assert forall|j: int| 0 <= j < i implies offered_source(
                    #[trigger] devices[j],
                    mono_only,
                ) != Some(choice.1) by {
                    assert(rest[j] == devices[j]);
                }
            }
        } else {
            let i = devices.len() - 1;
            assert(devices[i] == devices.last());
            assert forall|j: int| 0 <= j < i implies offered_source(#[trigger] devices[j], mono_only)
                != Some(choice.1) by {
                assert(rest[j] == devices[j]);
            }
        }
    }
}

fn lists_source(choices: &Vec<(String, String)>, source: &str) -> (r: bool)
    ensures
        r == has_source(choice_models(choices@), source@),
{
    let mut i: usize = 0;
    while i < choices.len()
        invariant
            i <= choices.len(),
            forall|j: int| 0 <= j < i ==> (#[trigger] choice_models(choices@)[j]).1 != source@,
        decreases choices.len() - i,
    {
        if str_eq(choices[i].1.as_str(), source) {
            assert(choice_models(choices@)[i as int].1 == source@);
            return true;
        }
        i = i + 1;
    }
    false
}

/// The cameras that can be chosen among the given devices.
pub fn enumerate_cameras(devices: &[VideoDevice]) -> (r: Vec<(String, String)>)
    ensures
        choice_models(r@) == offered(devices@, false),
{
    enumerate_cameras_filtered(devices, false)
}

/// The infrared cameras that can be chosen among the given devices.
pub fn enumerate_ir_cameras(devices: &[VideoDevice]) -> (r: Vec<(String, String)>)
    ensures
        choice_models(r@) == offered(devices@, true),
{
    enumerate_cameras_filtered(devices, true)
}

fn enumerate_cameras_filtered(devices: &[VideoDevice], mono_only: bool) -> (r: Vec<(String, String)>)
    ensures
        choice_models(r@) == offered(devices@, mono_only),
{
    let mut cameras: Vec<(String, String)> = Vec::new();
    assert(choice_models(cameras@) =~= seq![]);
    if !mono_only {
        cameras.push((PRIMARY_CAMERA_DISPLAY_NAME.to_owned(), DEFAULT_RGB_CAMERA.to_owned()));
        assert(choice_models(cameras@) =~= seq![
            (PRIMARY_CAMERA_DISPLAY_NAME@, DEFAULT_RGB_CAMERA@),
        ]);
    }
    assert(devices@.subrange(0, 0) =~= seq![]);
    let mut i: usize = 0;
    while i < devices.len()
        invariant
            i <= devices.len(),
            choice_models(cameras@) == offered(devices@.subrange(0, i as int), mono_only),
        decreases devices.len() - i,
    {
        let ghost next = devices@.subrange(0, i + 1);
        assert(next.drop_last() =~= devices@.subrange(0, i as int));
        assert(next.last() == devices@[i as int]);
        match &devices[i].props {
            None => {},
            Some(props) => {
                if props.pipewire && devices[i].has_color_caps() != mono_only {
                    match props.pipewire_target() {
                        None => {},
                        Some(target) => {
                            let source: String = joined(
                                "pipewiresrc target-object=",
                                target.as_str(),
                            );
                            if !lists_source(&cameras, source.as_str()) {
                                let name: String = devices[i].display_name.clone();
                                assert(choice_models(cameras@.push((name, source)))
                                    =~= choice_models(cameras@).push((name@, source@)));
                                cameras.push((name, source));
                            }
                        },
                    }
                }
            },
        }
        i = i + 1;
    }
    assert(devices@.subrange(0, i as int) =~= devices@);
    cameras
}

// Polling

/// What came of asking a running camera for a frame.
#[derive(Clone, Copy, Debug, PartialEq, Eq, Structural)]
pub enum SampleSeen {
    /// None arrived in time.
    Nothing,
    /// One arrived that can be used.
    Frame,
    /// One arrived that cannot be used.
    Unusable,
}

/// What a pipeline is doing.
#[derive(Clone, Copy, Debug, PartialEq, Eq, Structural)]
pub enum PipelineState {
    Playing,
    Paused,
    Stopped,
}

/// What to do next in a poll, or how it ended.
#[derive(Clone, Copy, Debug, PartialEq, Eq, Structural)]
pub enum PollStep {
    /// Ask whether the stream is over.
    AskEndOfStream,
    /// Ask whether an error or the end of the stream was reported.
    AskBus,
    /// Ask what the pipeline is doing.
    AskState,
    /// There is a frame.
    Frame,
    /// There is no frame yet.
    Timeout,
    /// There will be no more frames.
    Ended,
}

/// How a poll ends, from all that can be asked.
pub open spec fn poll_outcome(
    sample: SampleSeen,
    end_of_stream: bool,
    reported: bool,
    state: PipelineState,
) -> PollStep {
    match sample {
        SampleSeen::Frame => PollStep::Frame,
        SampleSeen::Unusable => PollStep::Timeout,
        SampleSeen::Nothing => if end_of_stream || reported || state == PipelineState::Stopped {
            PollStep::Ended
        } else {
            PollStep::Timeout
        },
    }
}

/// A frame that cannot be used is dropped and does not end the stream; without a frame the
/// stream's end is asked for.
pub open spec fn sample_step(sample: SampleSeen) -> PollStep {
    match sample {
        SampleSeen::Frame => PollStep::Frame,
        SampleSeen::Unusable => PollStep::Timeout,
        SampleSeen::Nothing => PollStep::AskEndOfStream,
    }
}

/// The end of the stream ends the poll; otherwise the bus is asked.
pub open spec fn stream_step(end_of_stream: bool) -> PollStep {
    if end_of_stream {
        PollStep::Ended
    } else {
        PollStep::AskBus
    }
}

/// A report ends the poll; otherwise the pipeline is asked.
pub open spec fn bus_step(reported: bool) -> PollStep {
    if reported {
        PollStep::Ended
    } else {
        PollStep::AskState
    }
}

/// A stopped pipeline ends the poll; otherwise there is just no frame yet.
pub open spec fn state_step(state: PipelineState) -> PollStep {
    if state == PipelineState::Stopped {
        PollStep::Ended
    } else {
        PollStep::Timeout
    }
}

/// The steps of a poll together end it as all that can be asked calls for.
pub proof fn poll_steps_give_the_outcome(
    sample: SampleSeen,
    end_of_stream: bool,
    reported: bool,
    state: PipelineState,
)
    ensures
        ({
            let outcome = poll_outcome(sample, end_of_stream, reported, state);
            match sample_step(sample) {
                PollStep::AskEndOfStream => match stream_step(end_of_stream) {
                    PollStep::AskBus => match bus_step(reported) {
                        PollStep::AskState => state_step(state) == outcome,
                        step => step == outcome,
                    },
                    step => step == outcome,
                },
                step => step == outcome,
            }
        }),
{
}

/// A poll has a frame exactly if one arrived that can be used. It ends the stream only if no
/// frame arrived and the stream, the bus or the pipeline says that there will be none; in
/// all other cases there is just no frame yet.
pub proof fn polls_end_for_a_reason(
    sample: SampleSeen,
    end_of_stream: bool,
    reported: bool,
    state: PipelineState,
)
    ensures
        poll_outcome(sample, end_of_stream, reported, state) == PollStep::Frame <==> sample
            == SampleSeen::Frame,
        poll_outcome(sample, end_of_stream, reported, state) == PollStep::Ended ==> sample
            == SampleSeen::Nothing,
        sample == SampleSeen::Nothing ==> (poll_outcome(sample, end_of_stream, reported, state)
            == PollStep::Timeout <==> !end_of_stream && !reported && state
            != PipelineState::Stopped),
        sample == SampleSeen::Unusable ==> poll_outcome(sample, end_of_stream, reported, state)
            == PollStep::Timeout,
{
}

/// What follows the wait for a frame.
pub fn after_sample(sample: SampleSeen) -> (r: PollStep)
    ensures
        r == sample_step(sample),
{
    match sample {
        SampleSeen::Frame => PollStep::Frame,
        SampleSeen::Unusable => PollStep::Timeout,
        SampleSeen::Nothing => PollStep::AskEndOfStream,
    }
}

/// What follows the question whether the stream is over.
pub fn after_end_of_stream(end_of_stream: bool) -> (r: PollStep)
    ensures
        r == stream_step(end_of_stream),
{
    if end_of_stream {
        PollStep::Ended
    } else {
        PollStep::AskBus
    }
}

/// What follows the question whether an error or the end was reported.
pub fn after_bus(reported: bool) -> (r: PollStep)
    ensures
        r == bus_step(reported),
{
    if reported {
        PollStep::Ended
    } else {
        PollStep::AskState
    }
}

/// What follows the question what the pipeline is doing.
pub fn after_state(state: PipelineState) -> (r: PollStep)
    ensures
        r == state_step(state),
{
    match state {
        PipelineState::Stopped => PollStep::Ended,
        _ => PollStep::Timeout,
    }
}

} // verus!
