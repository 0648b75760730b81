//! The requests of the core protocol and their replies.
//!
//! Each is written down as a definition. A resource ID, a timestamp or a
//! 32-bit mask is a field of four bytes, a coordinate or a dimension a field
//! of two, a choice among a few names a field of one. A color is three
//! 16-bit intensities in a field of six bytes.

use vstd::prelude::*;
use crate::definition::header::{Reply, Request};
use crate::definition::item::{CountWidth, Item};
use crate::definition::message::{Struct, StructMetadata};
use crate::definition::{well_formed, Definition, Definitions};

verus! {

/// A field of `size` bytes in the body of a message.
pub open spec fn spec_field(size: usize) -> Item {
    Item::Field { size, metabyte: false }
}

/// A field of `size` bytes in the body of a message.
#[verifier::when_used_as_spec(spec_field)]
pub fn field(size: usize) -> (item: Item)
    ensures
        item == spec_field(size),
{
    Item::Field { size, metabyte: false }
}

/// A field of one byte that travels in the header of a message.
pub open spec fn spec_metabyte() -> Item {
    Item::Field { size: 1, metabyte: true }
}

/// A field of one byte that travels in the header of a message.
#[verifier::when_used_as_spec(spec_metabyte)]
pub fn metabyte() -> (item: Item)
    ensures
        item == spec_metabyte(),
{
    Item::Field { size: 1, metabyte: true }
}

/// The number of elements of the list at `list`, in a field of its own in
/// the body of a message.
pub open spec fn spec_count(width: CountWidth, list: usize) -> Item {
    Item::Let { width, list, metabyte: false }
}

/// The number of elements of the list at `list`, in a field of its own in
/// the body of a message.
#[verifier::when_used_as_spec(spec_count)]
pub fn count(width: CountWidth, list: usize) -> (item: Item)
    ensures
        item == spec_count(width, list),
{
    Item::Let { width, list, metabyte: false }
}

/// The number of elements of the list at `list`, in the header of a
/// message.
pub open spec fn spec_counted_in_header(list: usize) -> Item {
    Item::Let { width: CountWidth::U8, list, metabyte: true }
}

/// The number of elements of the list at `list`, in the header of a
/// message.
#[verifier::when_used_as_spec(spec_counted_in_header)]
pub fn counted_in_header(list: usize) -> (item: Item)
    ensures
        item == spec_counted_in_header(list),
{
    Item::Let { width: CountWidth::U8, list, metabyte: true }
}

/// A list of elements of `unit` bytes each, whose number the item at
/// `count` carries.
pub open spec fn spec_list(count: usize, unit: usize) -> Item {
    Item::List { count, unit }
}

/// A list of elements of `unit` bytes each, whose number the item at
/// `count` carries.
#[verifier::when_used_as_spec(spec_list)]
pub fn list(count: usize, unit: usize) -> (item: Item)
    ensures
        item == spec_list(count, unit),
{
    Item::List { count, unit }
}

/// A list of strings, each with its length in its first byte, whose number
/// the item at `count` carries.
pub open spec fn spec_strings(count: usize) -> Item {
    Item::Strings { count }
}

/// A list of strings, each with its length in its first byte, whose number
/// the item at `count` carries.
#[verifier::when_used_as_spec(spec_strings)]
pub fn strings(count: usize) -> (item: Item)
    ensures
        item == spec_strings(count),
{
    Item::Strings { count }
}

/// The definition of a request with the major opcode `major_opcode`, whose
/// reply, if it has one, is defined at `reply`.
pub fn request(major_opcode: u8, reply: Option<usize>, items: Vec<Item>) -> (definition: Struct)
    ensures
        definition.metadata == StructMetadata::Request(
            Request { major_opcode, minor_opcode: None, reply },
        ),
        definition.items == items,
{
    Struct {
        metadata: StructMetadata::Request(Request { major_opcode, minor_opcode: None, reply }),
        items,
    }
}

/// The definition of the reply to the request that is defined at `request`.
/// Its header carries the sequence number.
pub fn reply(request: usize, items: Vec<Item>) -> (definition: Struct)
    ensures
        definition.metadata == StructMetadata::Reply(Reply { sequence: true, request }),
        definition.items == items,
{
    Struct { metadata: StructMetadata::Reply(Reply { sequence: true, request }), items }
}

/// The place of [`create_window`] in [`definitions`].
pub const CREATE_WINDOW: usize = 0;

/// The place of [`change_window_attributes`] in [`definitions`].
pub const CHANGE_WINDOW_ATTRIBUTES: usize = 1;

/// The place of [`get_window_attributes`] in [`definitions`].
pub const GET_WINDOW_ATTRIBUTES: usize = 2;

/// The place of [`get_window_attributes_reply`] in [`definitions`].
pub const GET_WINDOW_ATTRIBUTES_REPLY: usize = 3;

/// The place of [`destroy_window`] in [`definitions`].
pub const DESTROY_WINDOW: usize = 4;

/// The place of [`destroy_subwindows`] in [`definitions`].
pub const DESTROY_SUBWINDOWS: usize = 5;

/// The place of [`change_save_set`] in [`definitions`].
pub const CHANGE_SAVE_SET: usize = 6;

/// The place of [`reparent_window`] in [`definitions`].
pub const REPARENT_WINDOW: usize = 7;

/// The place of [`map_window`] in [`definitions`].
pub const MAP_WINDOW: usize = 8;

/// The place of [`map_subwindows`] in [`definitions`].
pub const MAP_SUBWINDOWS: usize = 9;

/// The place of [`unmap_window`] in [`definitions`].
pub const UNMAP_WINDOW: usize = 10;

/// The place of [`unmap_subwindows`] in [`definitions`].
pub const UNMAP_SUBWINDOWS: usize = 11;

/// The place of [`configure_window`] in [`definitions`].
pub const CONFIGURE_WINDOW: usize = 12;

/// The place of [`circulate_window`] in [`definitions`].
pub const CIRCULATE_WINDOW: usize = 13;

/// The place of [`get_geometry`] in [`definitions`].
pub const GET_GEOMETRY: usize = 14;

/// The place of [`get_geometry_reply`] in [`definitions`].
pub const GET_GEOMETRY_REPLY: usize = 15;

/// The place of [`query_tree`] in [`definitions`].
pub const QUERY_TREE: usize = 16;

/// The place of [`query_tree_reply`] in [`definitions`].
pub const QUERY_TREE_REPLY: usize = 17;

/// The place of [`intern_atom`] in [`definitions`].
pub const INTERN_ATOM: usize = 18;

/// The place of [`intern_atom_reply`] in [`definitions`].
pub const INTERN_ATOM_REPLY: usize = 19;

/// The place of [`get_atom_name`] in [`definitions`].
pub const GET_ATOM_NAME: usize = 20;

/// The place of [`get_atom_name_reply`] in [`definitions`].
pub const GET_ATOM_NAME_REPLY: usize = 21;

/// The place of [`set_selection_owner`] in [`definitions`].
pub const SET_SELECTION_OWNER: usize = 22;

/// The place of [`get_selection_owner`] in [`definitions`].
pub const GET_SELECTION_OWNER: usize = 23;

/// The place of [`get_selection_owner_reply`] in [`definitions`].
pub const GET_SELECTION_OWNER_REPLY: usize = 24;

/// The place of [`convert_selection`] in [`definitions`].
pub const CONVERT_SELECTION: usize = 25;

/// The place of [`send_event`] in [`definitions`].
pub const SEND_EVENT: usize = 26;

/// The place of [`grab_pointer`] in [`definitions`].
pub const GRAB_POINTER: usize = 27;

/// The place of [`grab_pointer_reply`] in [`definitions`].
pub const GRAB_POINTER_REPLY: usize = 28;

/// The place of [`ungrab_pointer`] in [`definitions`].
pub const UNGRAB_POINTER: usize = 29;

/// The place of [`grab_button`] in [`definitions`].
pub const GRAB_BUTTON: usize = 30;

/// The place of [`ungrab_button`] in [`definitions`].
pub const UNGRAB_BUTTON: usize = 31;

/// The place of [`change_active_pointer_grab`] in [`definitions`].
pub const CHANGE_ACTIVE_POINTER_GRAB: usize = 32;

/// The place of [`grab_keyboard`] in [`definitions`].
pub const GRAB_KEYBOARD: usize = 33;

/// The place of [`grab_keyboard_reply`] in [`definitions`].
pub const GRAB_KEYBOARD_REPLY: usize = 34;

/// The place of [`ungrab_keyboard`] in [`definitions`].
pub const UNGRAB_KEYBOARD: usize = 35;

/// The place of [`grab_key`] in [`definitions`].
pub const GRAB_KEY: usize = 36;

/// The place of [`ungrab_key`] in [`definitions`].
pub const UNGRAB_KEY: usize = 37;

/// The place of [`allow_events`] in [`definitions`].
pub const ALLOW_EVENTS: usize = 38;

/// The place of [`grab_server`] in [`definitions`].
pub const GRAB_SERVER: usize = 39;

/// The place of [`ungrab_server`] in [`definitions`].
pub const UNGRAB_SERVER: usize = 40;

/// The place of [`query_pointer`] in [`definitions`].
pub const QUERY_POINTER: usize = 41;

/// The place of [`query_pointer_reply`] in [`definitions`].
pub const QUERY_POINTER_REPLY: usize = 42;

/// The place of [`get_motion_events`] in [`definitions`].
pub const GET_MOTION_EVENTS: usize = 43;

/// The place of [`get_motion_events_reply`] in [`definitions`].
pub const GET_MOTION_EVENTS_REPLY: usize = 44;

/// The place of [`translate_coordinates`] in [`definitions`].
pub const TRANSLATE_COORDINATES: usize = 45;

/// The place of [`translate_coordinates_reply`] in [`definitions`].
pub const TRANSLATE_COORDINATES_REPLY: usize = 46;

/// The place of [`warp_pointer`] in [`definitions`].
pub const WARP_POINTER: usize = 47;

/// The place of [`set_input_focus`] in [`definitions`].
pub const SET_INPUT_FOCUS: usize = 48;

/// The place of [`get_input_focus`] in [`definitions`].
pub const GET_INPUT_FOCUS: usize = 49;

/// The place of [`get_input_focus_reply`] in [`definitions`].
pub const GET_INPUT_FOCUS_REPLY: usize = 50;

/// The place of [`query_keymap`] in [`definitions`].
pub const QUERY_KEYMAP: usize = 51;

/// The place of [`query_keymap_reply`] in [`definitions`].
pub const QUERY_KEYMAP_REPLY: usize = 52;

/// The place of [`open_font`] in [`definitions`].
pub const OPEN_FONT: usize = 53;

/// The place of [`close_font`] in [`definitions`].
pub const CLOSE_FONT: usize = 54;

/// The place of [`query_font`] in [`definitions`].
pub const QUERY_FONT: usize = 55;

/// The place of [`query_font_reply`] in [`definitions`].
pub const QUERY_FONT_REPLY: usize = 56;

/// The place of [`query_text_extents`] in [`definitions`].
pub const QUERY_TEXT_EXTENTS: usize = 57;

/// The place of [`query_text_extents_reply`] in [`definitions`].
pub const QUERY_TEXT_EXTENTS_REPLY: usize = 58;

/// The place of [`list_fonts`] in [`definitions`].
pub const LIST_FONTS: usize = 59;

/// The place of [`list_fonts_reply`] in [`definitions`].
pub const LIST_FONTS_REPLY: usize = 60;

/// The place of [`set_font_path`] in [`definitions`].
pub const SET_FONT_PATH: usize = 61;

/// The place of [`create_pixmap`] in [`definitions`].
pub const CREATE_PIXMAP: usize = 62;

/// The place of [`free_pixmap`] in [`definitions`].
pub const FREE_PIXMAP: usize = 63;

/// The place of [`create_graphics_context`] in [`definitions`].
pub const CREATE_GRAPHICS_CONTEXT: usize = 64;

/// The place of [`change_graphics_context`] in [`definitions`].
pub const CHANGE_GRAPHICS_CONTEXT: usize = 65;

/// The place of [`copy_graphics_context`] in [`definitions`].
pub const COPY_GRAPHICS_CONTEXT: usize = 66;

/// The place of [`set_dashes`] in [`definitions`].
pub const SET_DASHES: usize = 67;

/// The place of [`set_clip_rectangles`] in [`definitions`].
pub const SET_CLIP_RECTANGLES: usize = 68;

/// The place of [`free_graphics_context`] in [`definitions`].
pub const FREE_GRAPHICS_CONTEXT: usize = 69;

/// The place of [`clear_area`] in [`definitions`].
pub const CLEAR_AREA: usize = 70;

/// The place of [`copy_area`] in [`definitions`].
pub const COPY_AREA: usize = 71;

/// The place of [`copy_plane`] in [`definitions`].
pub const COPY_PLANE: usize = 72;

/// The place of [`poly_point`] in [`definitions`].
pub const POLY_POINT: usize = 73;

/// The place of [`poly_line`] in [`definitions`].
pub const POLY_LINE: usize = 74;

/// The place of [`poly_segment`] in [`definitions`].
pub const POLY_SEGMENT: usize = 75;

/// The place of [`poly_rectangle`] in [`definitions`].
pub const POLY_RECTANGLE: usize = 76;

/// The place of [`poly_arc`] in [`definitions`].
pub const POLY_ARC: usize = 77;

/// The place of [`fill_poly`] in [`definitions`].
pub const FILL_POLY: usize = 78;

/// The place of [`poly_fill_rectangle`] in [`definitions`].
pub const POLY_FILL_RECTANGLE: usize = 79;

/// The place of [`poly_fill_arc`] in [`definitions`].
pub const POLY_FILL_ARC: usize = 80;

/// The place of [`put_image`] in [`definitions`].
pub const PUT_IMAGE: usize = 81;

/// The place of [`get_image`] in [`definitions`].
pub const GET_IMAGE: usize = 82;

/// The place of [`get_image_reply`] in [`definitions`].
pub const GET_IMAGE_REPLY: usize = 83;

/// The place of [`poly_text8`] in [`definitions`].
pub const POLY_TEXT8: usize = 84;

/// The place of [`poly_text16`] in [`definitions`].
pub const POLY_TEXT16: usize = 85;

/// The place of [`image_text8`] in [`definitions`].
pub const IMAGE_TEXT8: usize = 86;

/// The place of [`image_text16`] in [`definitions`].
pub const IMAGE_TEXT16: usize = 87;

/// The place of [`create_colormap`] in [`definitions`].
pub const CREATE_COLORMAP: usize = 88;

/// The place of [`free_colormap`] in [`definitions`].
pub const FREE_COLORMAP: usize = 89;

/// The place of [`copy_colormap_and_free`] in [`definitions`].
pub const COPY_COLORMAP_AND_FREE: usize = 90;

/// The place of [`install_colormap`] in [`definitions`].
pub const INSTALL_COLORMAP: usize = 91;

/// The place of [`uninstall_colormap`] in [`definitions`].
pub const UNINSTALL_COLORMAP: usize = 92;

/// The place of [`list_installed_colormaps`] in [`definitions`].
pub const LIST_INSTALLED_COLORMAPS: usize = 93;

/// The place of [`list_installed_colormaps_reply`] in [`definitions`].
pub const LIST_INSTALLED_COLORMAPS_REPLY: usize = 94;

/// The place of [`alloc_color`] in [`definitions`].
pub const ALLOC_COLOR: usize = 95;

/// The place of [`alloc_color_reply`] in [`definitions`].
pub const ALLOC_COLOR_REPLY: usize = 96;

/// The place of [`alloc_named_color`] in [`definitions`].
pub const ALLOC_NAMED_COLOR: usize = 97;

/// The place of [`alloc_named_color_reply`] in [`definitions`].
pub const ALLOC_NAMED_COLOR_REPLY: usize = 98;

/// The place of [`alloc_color_cells`] in [`definitions`].
pub const ALLOC_COLOR_CELLS: usize = 99;

/// The place of [`alloc_color_cells_reply`] in [`definitions`].
pub const ALLOC_COLOR_CELLS_REPLY: usize = 100;

/// The place of [`alloc_color_planes`] in [`definitions`].
pub const ALLOC_COLOR_PLANES: usize = 101;

/// The place of [`alloc_color_planes_reply`] in [`definitions`].
pub const ALLOC_COLOR_PLANES_REPLY: usize = 102;

/// The place of [`free_colors`] in [`definitions`].
pub const FREE_COLORS: usize = 103;

/// The place of [`store_colors`] in [`definitions`].
pub const STORE_COLORS: usize = 104;

/// The place of [`store_named_color`] in [`definitions`].
pub const STORE_NAMED_COLOR: usize = 105;

/// The place of [`lookup_color`] in [`definitions`].
pub const LOOKUP_COLOR: usize = 106;

/// The place of [`lookup_color_reply`] in [`definitions`].
pub const LOOKUP_COLOR_REPLY: usize = 107;

/// The place of [`create_cursor`] in [`definitions`].
pub const CREATE_CURSOR: usize = 108;

/// The place of [`create_glyph_cursor`] in [`definitions`].
pub const CREATE_GLYPH_CURSOR: usize = 109;

/// The place of [`free_cursor`] in [`definitions`].
pub const FREE_CURSOR: usize = 110;

/// The place of [`recolor_cursor`] in [`definitions`].
pub const RECOLOR_CURSOR: usize = 111;

/// The place of [`query_best_size`] in [`definitions`].
pub const QUERY_BEST_SIZE: usize = 112;

/// The place of [`query_best_size_reply`] in [`definitions`].
pub const QUERY_BEST_SIZE_REPLY: usize = 113;

/// The place of [`query_extension`] in [`definitions`].
pub const QUERY_EXTENSION: usize = 114;

/// The place of [`query_extension_reply`] in [`definitions`].
pub const QUERY_EXTENSION_REPLY: usize = 115;

/// The place of [`list_extensions`] in [`definitions`].
pub const LIST_EXTENSIONS: usize = 116;

/// The place of [`list_extensions_reply`] in [`definitions`].
pub const LIST_EXTENSIONS_REPLY: usize = 117;

/// The place of [`get_keyboard_control`] in [`definitions`].
pub const GET_KEYBOARD_CONTROL: usize = 118;

/// The place of [`get_keyboard_control_reply`] in [`definitions`].
pub const GET_KEYBOARD_CONTROL_REPLY: usize = 119;

/// The place of [`bell`] in [`definitions`].
pub const BELL: usize = 120;

/// The place of [`change_pointer_control`] in [`definitions`].
pub const CHANGE_POINTER_CONTROL: usize = 121;

/// The place of [`get_pointer_control`] in [`definitions`].
pub const GET_POINTER_CONTROL: usize = 122;

/// The place of [`get_pointer_control_reply`] in [`definitions`].
pub const GET_POINTER_CONTROL_REPLY: usize = 123;

/// The place of [`set_screen_saver`] in [`definitions`].
pub const SET_SCREEN_SAVER: usize = 124;

/// The place of [`get_screen_saver`] in [`definitions`].
pub const GET_SCREEN_SAVER: usize = 125;

/// The place of [`get_screen_saver_reply`] in [`definitions`].
pub const GET_SCREEN_SAVER_REPLY: usize = 126;

/// The place of [`change_hosts`] in [`definitions`].
pub const CHANGE_HOSTS: usize = 127;

/// The place of [`list_hosts`] in [`definitions`].
pub const LIST_HOSTS: usize = 128;

/// The place of [`list_hosts_reply`] in [`definitions`].
pub const LIST_HOSTS_REPLY: usize = 129;

/// The place of [`set_access_control`] in [`definitions`].
pub const SET_ACCESS_CONTROL: usize = 130;

/// The place of [`set_close_down_mode`] in [`definitions`].
pub const SET_CLOSE_DOWN_MODE: usize = 131;

/// The place of [`rotate_properties`] in [`definitions`].
pub const ROTATE_PROPERTIES: usize = 132;

/// The place of [`force_screen_saver`] in [`definitions`].
pub const FORCE_SCREEN_SAVER: usize = 133;

/// The place of [`set_pointer_mapping`] in [`definitions`].
pub const SET_POINTER_MAPPING: usize = 134;

/// The place of [`set_pointer_mapping_reply`] in [`definitions`].
pub const SET_POINTER_MAPPING_REPLY: usize = 135;

/// The place of [`get_pointer_mapping`] in [`definitions`].
pub const GET_POINTER_MAPPING: usize = 136;

/// The place of [`get_pointer_mapping_reply`] in [`definitions`].
pub const GET_POINTER_MAPPING_REPLY: usize = 137;

/// Creates an unmapped window. The depth travels in the header; the values
/// of the attributes that the mask names take the rest of the request.
pub fn create_window() -> (definition: Struct)
    ensures
        definition.well_formed(),
        definition.metadata == StructMetadata::Request(
            Request { major_opcode: 1, minor_opcode: None, reply: None },
        ),
        definition.items@ == seq![
            metabyte(),
            field(4),
            field(4),
            field(2),
            field(2),
            field(2),
            field(2),
            field(2),
            field(2),
            field(4),
            field(4),
            Item::Rest,
        ],
{
    let items = vec![
        metabyte(),
        field(4),
        field(4),
        field(2),
        field(2),
        field(2),
        field(2),
        field(2),
        field(2),
        field(4),
        field(4),
        Item::Rest,
    ];
    request(1, None, items)
}

/// Changes attributes of a window: the window, the mask of the attributes,
/// and their values, which take the rest of the request.
pub fn change_window_attributes() -> (definition: Struct)
    ensures
        definition.well_formed(),
        definition.metadata == StructMetadata::Request(
            Request { major_opcode: 2, minor_opcode: None, reply: None },
        ),
        definition.items@ == seq![
            field(4),
            field(4),
            Item::Rest,
        ],
{
    let items = vec![
        field(4),
        field(4),
        Item::Rest,
    ];
    request(2, None, items)
}

/// Asks for the attributes of a window.
pub fn get_window_attributes() -> (definition: Struct)
    ensures
        definition.well_formed(),
        definition.metadata == StructMetadata::Request(
            Request {
                major_opcode: 3,
                minor_opcode: None,
                reply: Some(GET_WINDOW_ATTRIBUTES_REPLY),
            },
        ),
        definition.items@ == seq![
            field(4),
        ],
{
    let items = vec![
        field(4),
    ];
    request(3, Some(GET_WINDOW_ATTRIBUTES_REPLY), items)
}

/// The attributes of a window. The backing store travels in the header.
pub fn get_window_attributes_reply() -> (definition: Struct)
    ensures
        definition.well_formed(),
        definition.metadata == StructMetadata::Reply(
            Reply { sequence: true, request: GET_WINDOW_ATTRIBUTES },
        ),
        definition.items@ == seq![
            metabyte(),
            field(4),
            field(2),
            field(1),
            field(1),
            field(4),
            field(4),
            field(1),
            field(1),
            field(1),
            field(1),
            field(4),
            field(4),
            field(4),
            field(2),
            Item::Pad,
        ],
{
    let items = vec![
        metabyte(),
        field(4),
        field(2),
        field(1),
        field(1),
        field(4),
        field(4),
        field(1),
        field(1),
        field(1),
        field(1),
        field(4),
        field(4),
        field(4),
        field(2),
        Item::Pad,
    ];
    reply(GET_WINDOW_ATTRIBUTES, items)
}

/// Destroys a window.
pub fn destroy_window() -> (definition: Struct)
    ensures
        definition.well_formed(),
        definition.metadata == StructMetadata::Request(
            Request { major_opcode: 4, minor_opcode: None, reply: None },
        ),
        definition.items@ == seq![
            field(4),
        ],
{
    let items = vec![
        field(4),
    ];
    request(4, None, items)
}

/// Destroys the children of a window.
pub fn destroy_subwindows() -> (definition: Struct)
    ensures
        definition.well_formed(),
        definition.metadata == StructMetadata::Request(
            Request { major_opcode: 5, minor_opcode: None, reply: None },
        ),
        definition.items@ == seq![
            field(4),
        ],
{
    let items = vec![
        field(4),
    ];
    request(5, None, items)
}

/// Adds a window to the save set or takes it out. Which of the two travels
/// in the header.
pub fn change_save_set() -> (definition: Struct)
    ensures
        definition.well_formed(),
        definition.metadata == StructMetadata::Request(
            Request { major_opcode: 6, minor_opcode: None, reply: None },
        ),
        definition.items@ == seq![
            metabyte(),
            field(4),
        ],
{
    let items = vec![
        metabyte(),
        field(4),
    ];
    request(6, None, items)
}

/// Gives a window a new parent: the window, the parent, and the place of the
/// window in it.
pub fn reparent_window() -> (definition: Struct)
    ensures
        definition.well_formed(),
        definition.metadata == StructMetadata::Request(
            Request { major_opcode: 7, minor_opcode: None, reply: None },
        ),
        definition.items@ == seq![
            field(4),
            field(4),
            field(2),
            field(2),
        ],
{
    let items = vec![
        field(4),
        field(4),
        field(2),
        field(2),
    ];
    request(7, None, items)
}

/// Maps a window.
pub fn map_window() -> (definition: Struct)
    ensures
        definition.well_formed(),
        definition.metadata == StructMetadata::Request(
            Request { major_opcode: 8, minor_opcode: None, reply: None },
        ),
        definition.items@ == seq![
            field(4),
        ],
{
    let items = vec![
        field(4),
    ];
    request(8, None, items)
}

/// Maps the children of a window.
pub fn map_subwindows() -> (definition: Struct)
    ensures
        definition.well_formed(),
        definition.metadata == StructMetadata::Request(
            Request { major_opcode: 9, minor_opcode: None, reply: None },
        ),
        definition.items@ == seq![
            field(4),
        ],
{
    let items = vec![
        field(4),
    ];
    request(9, None, items)
}

/// Unmaps a window.
pub fn unmap_window() -> (definition: Struct)
    ensures
        definition.well_formed(),
        definition.metadata == StructMetadata::Request(
            Request { major_opcode: 10, minor_opcode: None, reply: None },
        ),
        definition.items@ == seq![
            field(4),
        ],
{
    let items = vec![
        field(4),
    ];
    request(10, None, items)
}

/// Unmaps the children of a window.
pub fn unmap_subwindows() -> (definition: Struct)
    ensures
        definition.well_formed(),
        definition.metadata == StructMetadata::Request(
            Request { major_opcode: 11, minor_opcode: None, reply: None },
        ),
        definition.items@ == seq![
            field(4),
        ],
{
    let items = vec![
        field(4),
    ];
    request(11, None, items)
}

/// Configures a window: the window, and then the set of options, which
/// takes the rest of the request.
pub fn configure_window() -> (definition: Struct)
    ensures
        definition.well_formed(),
        definition.metadata == StructMetadata::Request(
            Request { major_opcode: 12, minor_opcode: None, reply: None },
        ),
        definition.items@ == seq![
            field(4),
            Item::Rest,
        ],
{
    let items = vec![
        field(4),
        Item::Rest,
    ];
    request(12, None, items)
}

/// Circulates a window. The direction travels in the header.
pub fn circulate_window() -> (definition: Struct)
    ensures
        definition.well_formed(),
        definition.metadata == StructMetadata::Request(
            Request { major_opcode: 13, minor_opcode: None, reply: None },
        ),
        definition.items@ == seq![
            metabyte(),
            field(4),
        ],
{
    let items = vec![
        metabyte(),
        field(4),
    ];
    request(13, None, items)
}

/// Asks for the geometry of a drawable.
pub fn get_geometry() -> (definition: Struct)
    ensures
        definition.well_formed(),
        definition.metadata == StructMetadata::Request(
            Request { major_opcode: 14, minor_opcode: None, reply: Some(GET_GEOMETRY_REPLY) },
        ),
        definition.items@ == seq![
            field(4),
        ],
{
    let items = vec![
        field(4),
    ];
    request(14, Some(GET_GEOMETRY_REPLY), items)
}

/// The geometry of a drawable: its root, its place, its size and the width
/// of its border. The depth travels in the header.
pub fn get_geometry_reply() -> (definition: Struct)
    ensures
        definition.well_formed(),
        definition.metadata == StructMetadata::Reply(
            Reply { sequence: true, request: GET_GEOMETRY },
        ),
        definition.items@ == seq![
            metabyte(),
            field(4),
            field(2),
            field(2),
            field(2),
            field(2),
            field(2),
            Item::Pad,
        ],
{
    let items = vec![
        metabyte(),
        field(4),
        field(2),
        field(2),
        field(2),
        field(2),
        field(2),
        Item::Pad,
    ];
    reply(GET_GEOMETRY, items)
}

/// Asks for the root, the parent and the children of a window.
pub fn query_tree() -> (definition: Struct)
    ensures
        definition.well_formed(),
        definition.metadata == StructMetadata::Request(
            Request { major_opcode: 15, minor_opcode: None, reply: Some(QUERY_TREE_REPLY) },
        ),
        definition.items@ == seq![
            field(4),
        ],
{
    let items = vec![
        field(4),
    ];
    request(15, Some(QUERY_TREE_REPLY), items)
}

/// The root and the parent of a window, the number of its children, and
/// after fourteen unused bytes the children themselves.
pub fn query_tree_reply() -> (definition: Struct)
    ensures
        definition.well_formed(),
        definition.metadata == StructMetadata::Reply(
            Reply { sequence: true, request: QUERY_TREE },
        ),
        definition.items@ == seq![
            field(4),
            field(4),
            count(CountWidth::U16, 4),
            Item::Unused(14),
            list(2, 4),
        ],
{
    let items = vec![
        field(4),
        field(4),
        count(CountWidth::U16, 4),
        Item::Unused(14),
        list(2, 4),
    ];
    reply(QUERY_TREE, items)
}

/// Asks for the atom of a name. Whether the atom must exist travels in the
/// header; the length of the name comes before the name.
pub fn intern_atom() -> (definition: Struct)
    ensures
        definition.well_formed(),
        definition.metadata == StructMetadata::Request(
            Request { major_opcode: 16, minor_opcode: None, reply: Some(INTERN_ATOM_REPLY) },
        ),
        definition.items@ == seq![
            metabyte(),
            count(CountWidth::U16, 3),
            Item::Unused(2),
            list(1, 1),
            Item::Pad,
        ],
{
    let items = vec![
        metabyte(),
        count(CountWidth::U16, 3),
        Item::Unused(2),
        list(1, 1),
        Item::Pad,
    ];
    request(16, Some(INTERN_ATOM_REPLY), items)
}

/// The atom of a name.
pub fn intern_atom_reply() -> (definition: Struct)
    ensures
        definition.well_formed(),
        definition.metadata == StructMetadata::Reply(
            Reply { sequence: true, request: INTERN_ATOM },
        ),
        definition.items@ == seq![
            field(4),
            Item::Pad,
        ],
{
    let items = vec![
        field(4),
        Item::Pad,
    ];
    reply(INTERN_ATOM, items)
}

/// Asks for the name of an atom.
pub fn get_atom_name() -> (definition: Struct)
    ensures
        definition.well_formed(),
        definition.metadata == StructMetadata::Request(
            Request { major_opcode: 17, minor_opcode: None, reply: Some(GET_ATOM_NAME_REPLY) },
        ),
        definition.items@ == seq![
            field(4),
        ],
{
    let items = vec![
        field(4),
    ];
    request(17, Some(GET_ATOM_NAME_REPLY), items)
}

/// The name of an atom: its length, and after 22 unused bytes the name.
pub fn get_atom_name_reply() -> (definition: Struct)
    ensures
        definition.well_formed(),
        definition.metadata == StructMetadata::Reply(
            Reply { sequence: true, request: GET_ATOM_NAME },
        ),
        definition.items@ == seq![
            count(CountWidth::U16, 2),
            Item::Unused(22),
            list(0, 1),
            Item::Pad,
        ],
{
    let items = vec![
        count(CountWidth::U16, 2),
        Item::Unused(22),
        list(0, 1),
        Item::Pad,
    ];
    reply(GET_ATOM_NAME, items)
}

/// Sets the owner of a selection: the owner, the selection and the time.
pub fn set_selection_owner() -> (definition: Struct)
    ensures
        definition.well_formed(),
        definition.metadata == StructMetadata::Request(
            Request { major_opcode: 22, minor_opcode: None, reply: None },
        ),
        definition.items@ == seq![
            field(4),
            field(4),
            field(4),
        ],
{
    let items = vec![
        field(4),
        field(4),
        field(4),
    ];
    request(22, None, items)
}

/// Asks for the owner of a selection.
pub fn get_selection_owner() -> (definition: Struct)
    ensures
        definition.well_formed(),
        definition.metadata == StructMetadata::Request(
            Request {
                major_opcode: 23,
                minor_opcode: None,
                reply: Some(GET_SELECTION_OWNER_REPLY),
            },
        ),
        definition.items@ == seq![
            field(4),
        ],
{
    let items = vec![
        field(4),
    ];
    request(23, Some(GET_SELECTION_OWNER_REPLY), items)
}

/// The owner of a selection.
pub fn get_selection_owner_reply() -> (definition: Struct)
    ensures
        definition.well_formed(),
        definition.metadata == StructMetadata::Reply(
            Reply { sequence: true, request: GET_SELECTION_OWNER },
        ),
        definition.items@ == seq![
            field(4),
            Item::Pad,
        ],
{
    let items = vec![
        field(4),
        Item::Pad,
    ];
    reply(GET_SELECTION_OWNER, items)
}

/// Asks the owner of a selection to convert it: the requestor, the
/// selection, the target, the property and the time.
pub fn convert_selection() -> (definition: Struct)
    ensures
        definition.well_formed(),
        definition.metadata == StructMetadata::Request(
            Request { major_opcode: 24, minor_opcode: None, reply: None },
        ),
        definition.items@ == seq![
            field(4),
            field(4),
            field(4),
            field(4),
            field(4),
        ],
{
    let items = vec![
        field(4),
        field(4),
        field(4),
        field(4),
        field(4),
    ];
    request(24, None, items)
}

/// Sends an event: the destination, the mask of the events, and the 32
/// bytes of the event. Whether the event is passed on travels in the
/// header.
pub fn send_event() -> (definition: Struct)
    ensures
        definition.well_formed(),
        definition.metadata == StructMetadata::Request(
            Request { major_opcode: 25, minor_opcode: None, reply: None },
        ),
        definition.items@ == seq![
            metabyte(),
            field(4),
            field(4),
            field(32),
        ],
{
    let items = vec![
        metabyte(),
        field(4),
        field(4),
        field(32),
    ];
    request(25, None, items)
}

/// Grabs the pointer. Whether the owner keeps its events travels in the
/// header.
pub fn grab_pointer() -> (definition: Struct)
    ensures
        definition.well_formed(),
        definition.metadata == StructMetadata::Request(
            Request { major_opcode: 26, minor_opcode: None, reply: Some(GRAB_POINTER_REPLY) },
        ),
        definition.items@ == seq![
            metabyte(),
            field(4),
            field(2),
            field(1),
            field(1),
            field(4),
            field(4),
            field(4),
        ],
{
    let items = vec![
        metabyte(),
        field(4),
        field(2),
        field(1),
        field(1),
        field(4),
        field(4),
        field(4),
    ];
    request(26, Some(GRAB_POINTER_REPLY), items)
}

/// Whether the pointer was grabbed. The status travels in the header.
pub fn grab_pointer_reply() -> (definition: Struct)
    ensures
        definition.well_formed(),
        definition.metadata == StructMetadata::Reply(
            Reply { sequence: true, request: GRAB_POINTER },
        ),
        definition.items@ == seq![
            metabyte(),
            Item::Pad,
        ],
{
    let items = vec![
        metabyte(),
        Item::Pad,
    ];
    reply(GRAB_POINTER, items)
}

/// Releases the pointer.
pub fn ungrab_pointer() -> (definition: Struct)
    ensures
        definition.well_formed(),
        definition.metadata == StructMetadata::Request(
            Request { major_opcode: 27, minor_opcode: None, reply: None },
        ),
        definition.items@ == seq![
            field(4),
        ],
{
    let items = vec![
        field(4),
    ];
    request(27, None, items)
}

/// Grabs a button of the pointer: the window, the mask of the events, the
/// two modes, the window to keep the pointer in, the cursor, the button,
/// and after one unused byte the modifiers. Whether the owner keeps its
/// events travels in the header.
pub fn grab_button() -> (definition: Struct)
    ensures
        definition.well_formed(),
        definition.metadata == StructMetadata::Request(
            Request { major_opcode: 28, minor_opcode: None, reply: None },
        ),
        definition.items@ == seq![
            metabyte(),
            field(4),
            field(2),
            field(1),
            field(1),
            field(4),
            field(4),
            field(1),
            Item::Unused(1),
            field(2),
        ],
{
    let items = vec![
        metabyte(),
        field(4),
        field(2),
        field(1),
        field(1),
        field(4),
        field(4),
        field(1),
        Item::Unused(1),
        field(2),
    ];
    request(28, None, items)
}

/// Releases a button of the pointer: the window and the modifiers. The
/// button travels in the header.
pub fn ungrab_button() -> (definition: Struct)
    ensures
        definition.well_formed(),
        definition.metadata == StructMetadata::Request(
            Request { major_opcode: 29, minor_opcode: None, reply: None },
        ),
        definition.items@ == seq![
            metabyte(),
            field(4),
            field(2),
            Item::Pad,
        ],
{
    let items = vec![
        metabyte(),
        field(4),
        field(2),
        Item::Pad,
    ];
    request(29, None, items)
}

/// Changes the grab of the pointer that is active: the cursor, the time
/// and the mask of the events.
pub fn change_active_pointer_grab() -> (definition: Struct)
    ensures
        definition.well_formed(),
        definition.metadata == StructMetadata::Request(
            Request { major_opcode: 30, minor_opcode: None, reply: None },
        ),
        definition.items@ == seq![
            field(4),
            field(4),
            field(2),
            Item::Pad,
        ],
{
    let items = vec![
        field(4),
        field(4),
        field(2),
        Item::Pad,
    ];
    request(30, None, items)
}

/// Grabs the keyboard. Whether the owner keeps its events travels in the
/// header.
pub fn grab_keyboard() -> (definition: Struct)
    ensures
        definition.well_formed(),
        definition.metadata == StructMetadata::Request(
            Request { major_opcode: 31, minor_opcode: None, reply: Some(GRAB_KEYBOARD_REPLY) },
        ),
        definition.items@ == seq![
            metabyte(),
            field(4),
            field(4),
            field(1),
            field(1),
            Item::Pad,
        ],
{
    let items = vec![
        metabyte(),
        field(4),
        field(4),
        field(1),
        field(1),
        Item::Pad,
    ];
    request(31, Some(GRAB_KEYBOARD_REPLY), items)
}

/// Whether the keyboard was grabbed. The status travels in the header.
pub fn grab_keyboard_reply() -> (definition: Struct)
    ensures
        definition.well_formed(),
        definition.metadata == StructMetadata::Reply(
            Reply { sequence: true, request: GRAB_KEYBOARD },
        ),
        definition.items@ == seq![
            metabyte(),
            Item::Pad,
        ],
{
    let items = vec![
        metabyte(),
        Item::Pad,
    ];
    reply(GRAB_KEYBOARD, items)
}

/// Releases the keyboard.
pub fn ungrab_keyboard() -> (definition: Struct)
    ensures
        definition.well_formed(),
        definition.metadata == StructMetadata::Request(
            Request { major_opcode: 32, minor_opcode: None, reply: None },
        ),
        definition.items@ == seq![
            field(4),
        ],
{
    let items = vec![
        field(4),
    ];
    request(32, None, items)
}

/// Grabs a key: the window, the modifiers, the key and the two modes.
/// Whether the owner keeps its events travels in the header.
pub fn grab_key() -> (definition: Struct)
    ensures
        definition.well_formed(),
        definition.metadata == StructMetadata::Request(
            Request { major_opcode: 33, minor_opcode: None, reply: None },
        ),
        definition.items@ == seq![
            metabyte(),
            field(4),
            field(2),
            field(1),
            field(1),
            field(1),
            Item::Pad,
        ],
{
    let items = vec![
        metabyte(),
        field(4),
        field(2),
        field(1),
        field(1),
        field(1),
        Item::Pad,
    ];
    request(33, None, items)
}

/// Releases a key: the window and the modifiers. The key travels in the
/// header.
pub fn ungrab_key() -> (definition: Struct)
    ensures
        definition.well_formed(),
        definition.metadata == StructMetadata::Request(
            Request { major_opcode: 34, minor_opcode: None, reply: None },
        ),
        definition.items@ == seq![
            metabyte(),
            field(4),
            field(2),
            Item::Pad,
        ],
{
    let items = vec![
        metabyte(),
        field(4),
        field(2),
        Item::Pad,
    ];
    request(34, None, items)
}

/// Releases events that a grab holds back. The mode travels in the header.
pub fn allow_events() -> (definition: Struct)
    ensures
        definition.well_formed(),
        definition.metadata == StructMetadata::Request(
            Request { major_opcode: 35, minor_opcode: None, reply: None },
        ),
        definition.items@ == seq![
            metabyte(),
            field(4),
        ],
{
    let items = vec![
        metabyte(),
        field(4),
    ];
    request(35, None, items)
}

/// Grabs the server.
pub fn grab_server() -> (definition: Struct)
    ensures
        definition.well_formed(),
        definition.metadata == StructMetadata::Request(
            Request { major_opcode: 36, minor_opcode: None, reply: None },
        ),
        definition.items@ == Seq::<Item>::empty(),
{
    let items = Vec::new();
    request(36, None, items)
}

/// Releases the server.
pub fn ungrab_server() -> (definition: Struct)
    ensures
        definition.well_formed(),
        definition.metadata == StructMetadata::Request(
            Request { major_opcode: 37, minor_opcode: None, reply: None },
        ),
        definition.items@ == Seq::<Item>::empty(),
{
    let items = Vec::new();
    request(37, None, items)
}

/// Asks where the pointer is.
pub fn query_pointer() -> (definition: Struct)
    ensures
        definition.well_formed(),
        definition.metadata == StructMetadata::Request(
            Request { major_opcode: 38, minor_opcode: None, reply: Some(QUERY_POINTER_REPLY) },
        ),
        definition.items@ == seq![
            field(4),
        ],
{
    let items = vec![
        field(4),
    ];
    request(38, Some(QUERY_POINTER_REPLY), items)
}

/// Where the pointer is: the root, the child, the place in the root and in
/// the window, and the state of the keys. Whether it is on the screen of
/// the window travels in the header.
pub fn query_pointer_reply() -> (definition: Struct)
    ensures
        definition.well_formed(),
        definition.metadata == StructMetadata::Reply(
            Reply { sequence: true, request: QUERY_POINTER },
        ),
        definition.items@ == seq![
            metabyte(),
            field(4),
            field(4),
            field(2),
            field(2),
            field(2),
            field(2),
            field(2),
            Item::Pad,
        ],
{
    let items = vec![
        metabyte(),
        field(4),
        field(4),
        field(2),
        field(2),
        field(2),
        field(2),
        field(2),
        Item::Pad,
    ];
    reply(QUERY_POINTER, items)
}

/// Asks where the pointer has been in a window between two times.
pub fn get_motion_events() -> (definition: Struct)
    ensures
        definition.well_formed(),
        definition.metadata == StructMetadata::Request(
            Request { major_opcode: 39, minor_opcode: None, reply: Some(GET_MOTION_EVENTS_REPLY) },
        ),
        definition.items@ == seq![
            field(4),
            field(4),
            field(4),
        ],
{
    let items = vec![
        field(4),
        field(4),
        field(4),
    ];
    request(39, Some(GET_MOTION_EVENTS_REPLY), items)
}

/// Where the pointer has been: the number of the places, and after twenty
/// unused bytes the places, each a time and two coordinates.
pub fn get_motion_events_reply() -> (definition: Struct)
    ensures
        definition.well_formed(),
        definition.metadata == StructMetadata::Reply(
            Reply { sequence: true, request: GET_MOTION_EVENTS },
        ),
        definition.items@ == seq![
            count(CountWidth::U32, 2),
            Item::Unused(20),
            list(0, 8),
        ],
{
    let items = vec![
        count(CountWidth::U32, 2),
        Item::Unused(20),
        list(0, 8),
    ];
    reply(GET_MOTION_EVENTS, items)
}

/// Asks for the place in one window of a place in another.
pub fn translate_coordinates() -> (definition: Struct)
    ensures
        definition.well_formed(),
        definition.metadata == StructMetadata::Request(
            Request {
                major_opcode: 40,
                minor_opcode: None,
                reply: Some(TRANSLATE_COORDINATES_REPLY),
            },
        ),
        definition.items@ == seq![
            field(4),
            field(4),
            field(2),
            field(2),
        ],
{
    let items = vec![
        field(4),
        field(4),
        field(2),
        field(2),
    ];
    request(40, Some(TRANSLATE_COORDINATES_REPLY), items)
}

/// The place in the other window, and the child that holds it. Whether the
/// windows are on one screen travels in the header.
pub fn translate_coordinates_reply() -> (definition: Struct)
    ensures
        definition.well_formed(),
        definition.metadata == StructMetadata::Reply(
            Reply { sequence: true, request: TRANSLATE_COORDINATES },
        ),
        definition.items@ == seq![
            metabyte(),
            field(4),
            field(2),
            field(2),
            Item::Pad,
        ],
{
    let items = vec![
        metabyte(),
        field(4),
        field(2),
        field(2),
        Item::Pad,
    ];
    reply(TRANSLATE_COORDINATES, items)
}

/// Moves the pointer: the two windows, a rectangle in the first, and the
/// place in the second.
pub fn warp_pointer() -> (definition: Struct)
    ensures
        definition.well_formed(),
        definition.metadata == StructMetadata::Request(
            Request { major_opcode: 41, minor_opcode: None, reply: None },
        ),
        definition.items@ == seq![
            field(4),
            field(4),
            field(2),
            field(2),
            field(2),
            field(2),
            field(2),
            field(2),
        ],
{
    let items = vec![
        field(4),
        field(4),
        field(2),
        field(2),
        field(2),
        field(2),
        field(2),
        field(2),
    ];
    request(41, None, items)
}

/// Sets the input focus: the focus and the time. What the focus reverts to
/// travels in the header.
pub fn set_input_focus() -> (definition: Struct)
    ensures
        definition.well_formed(),
        definition.metadata == StructMetadata::Request(
            Request { major_opcode: 42, minor_opcode: None, reply: None },
        ),
        definition.items@ == seq![
            metabyte(),
            field(4),
            field(4),
        ],
{
    let items = vec![
        metabyte(),
        field(4),
        field(4),
    ];
    request(42, None, items)
}

/// Asks for the input focus.
pub fn get_input_focus() -> (definition: Struct)
    ensures
        definition.well_formed(),
        definition.metadata == StructMetadata::Request(
            Request { major_opcode: 43, minor_opcode: None, reply: Some(GET_INPUT_FOCUS_REPLY) },
        ),
        definition.items@ == Seq::<Item>::empty(),
{
    let items = Vec::new();
    request(43, Some(GET_INPUT_FOCUS_REPLY), items)
}

/// The input focus. What it reverts to travels in the header.
pub fn get_input_focus_reply() -> (definition: Struct)
    ensures
        definition.well_formed(),
        definition.metadata == StructMetadata::Reply(
            Reply { sequence: true, request: GET_INPUT_FOCUS },
        ),
        definition.items@ == seq![
            metabyte(),
            field(4),
            Item::Pad,
        ],
{
    let items = vec![
        metabyte(),
        field(4),
        Item::Pad,
    ];
    reply(GET_INPUT_FOCUS, items)
}

/// Asks which keys are down.
pub fn query_keymap() -> (definition: Struct)
    ensures
        definition.well_formed(),
        definition.metadata == StructMetadata::Request(
            Request { major_opcode: 44, minor_opcode: None, reply: Some(QUERY_KEYMAP_REPLY) },
        ),
        definition.items@ == Seq::<Item>::empty(),
{
    let items = Vec::new();
    request(44, Some(QUERY_KEYMAP_REPLY), items)
}

/// Which keys are down: a bit for each key.
pub fn query_keymap_reply() -> (definition: Struct)
    ensures
        definition.well_formed(),
        definition.metadata == StructMetadata::Reply(
            Reply { sequence: true, request: QUERY_KEYMAP },
        ),
        definition.items@ == seq![
            field(32),
        ],
{
    let items = vec![
        field(32),
    ];
    reply(QUERY_KEYMAP, items)
}

/// Opens a font: the ID for it, the length of its name, and after two
/// unused bytes the name.
pub fn open_font() -> (definition: Struct)
    ensures
        definition.well_formed(),
        definition.metadata == StructMetadata::Request(
            Request { major_opcode: 45, minor_opcode: None, reply: None },
        ),
        definition.items@ == seq![
            field(4),
            count(CountWidth::U16, 3),
            Item::Unused(2),
            list(1, 1),
            Item::Pad,
        ],
{
    let items = vec![
        field(4),
        count(CountWidth::U16, 3),
        Item::Unused(2),
        list(1, 1),
        Item::Pad,
    ];
    request(45, None, items)
}

/// Closes a font.
pub fn close_font() -> (definition: Struct)
    ensures
        definition.well_formed(),
        definition.metadata == StructMetadata::Request(
            Request { major_opcode: 46, minor_opcode: None, reply: None },
        ),
        definition.items@ == seq![
            field(4),
        ],
{
    let items = vec![
        field(4),
    ];
    request(46, None, items)
}

/// Asks about a font.
pub fn query_font() -> (definition: Struct)
    ensures
        definition.well_formed(),
        definition.metadata == StructMetadata::Request(
            Request { major_opcode: 47, minor_opcode: None, reply: Some(QUERY_FONT_REPLY) },
        ),
        definition.items@ == seq![
            field(4),
        ],
{
    let items = vec![
        field(4),
    ];
    request(47, Some(QUERY_FONT_REPLY), items)
}

/// What there is to know about a font: the bounds of its characters, the
/// range of its characters and the one that stands in for those it
/// lacks, its direction, its ascent and descent, and
/// then its properties, of eight bytes each, and the metrics of its
/// characters, of twelve bytes each. The number of the properties and that
/// of the metrics stand among the fields before them.
pub fn query_font_reply() -> (definition: Struct)
    ensures
        definition.well_formed(),
        definition.metadata == StructMetadata::Reply(
            Reply { sequence: true, request: QUERY_FONT },
        ),
        definition.items@ == seq![
            field(12),
            Item::Unused(4),
            field(12),
            Item::Unused(4),
            field(2),
            field(2),
            field(2),
            count(CountWidth::U16, 15),
            field(1),
            field(1),
            field(1),
            field(1),
            field(2),
            field(2),
            count(CountWidth::U32, 16),
            list(7, 8),
            list(14, 12),
        ],
{
    let items = vec![
        field(12),
        Item::Unused(4),
        field(12),
        Item::Unused(4),
        field(2),
        field(2),
        field(2),
        count(CountWidth::U16, 15),
        field(1),
        field(1),
        field(1),
        field(1),
        field(2),
        field(2),
        count(CountWidth::U32, 16),
        list(7, 8),
        list(14, 12),
    ];
    reply(QUERY_FONT, items)
}

/// Asks how much room a string of two-byte characters takes in a font.
/// The string takes the rest of the request; whether its last two bytes
/// are padding travels in the header.
pub fn query_text_extents() -> (definition: Struct)
    ensures
        definition.well_formed(),
        definition.metadata == StructMetadata::Request(
            Request { major_opcode: 48, minor_opcode: None, reply: Some(QUERY_TEXT_EXTENTS_REPLY) },
        ),
        definition.items@ == seq![
            metabyte(),
            field(4),
            Item::Rest,
        ],
{
    let items = vec![
        metabyte(),
        field(4),
        Item::Rest,
    ];
    request(48, Some(QUERY_TEXT_EXTENTS_REPLY), items)
}

/// How much room the string takes. The direction travels in the header.
pub fn query_text_extents_reply() -> (definition: Struct)
    ensures
        definition.well_formed(),
        definition.metadata == StructMetadata::Reply(
            Reply { sequence: true, request: QUERY_TEXT_EXTENTS },
        ),
        definition.items@ == seq![
            metabyte(),
            field(2),
            field(2),
            field(2),
            field(2),
            field(4),
            field(4),
            field(4),
            Item::Pad,
        ],
{
    let items = vec![
        metabyte(),
        field(2),
        field(2),
        field(2),
        field(2),
        field(4),
        field(4),
        field(4),
        Item::Pad,
    ];
    reply(QUERY_TEXT_EXTENTS, items)
}

/// Asks for the names of the fonts that match a pattern: the most names to
/// give, the length of the pattern, and the pattern.
pub fn list_fonts() -> (definition: Struct)
    ensures
        definition.well_formed(),
        definition.metadata == StructMetadata::Request(
            Request { major_opcode: 49, minor_opcode: None, reply: Some(LIST_FONTS_REPLY) },
        ),
        definition.items@ == seq![
            field(2),
            count(CountWidth::U16, 2),
            list(1, 1),
            Item::Pad,
        ],
{
    let items = vec![
        field(2),
        count(CountWidth::U16, 2),
        list(1, 1),
        Item::Pad,
    ];
    request(49, Some(LIST_FONTS_REPLY), items)
}

/// The names of the fonts: their number, and after 22 unused bytes the
/// names, each with its length in its first byte.
pub fn list_fonts_reply() -> (definition: Struct)
    ensures
        definition.well_formed(),
        definition.metadata == StructMetadata::Reply(
            Reply { sequence: true, request: LIST_FONTS },
        ),
        definition.items@ == seq![
            count(CountWidth::U16, 2),
            Item::Unused(22),
            strings(0),
            Item::Pad,
        ],
{
    let items = vec![
        count(CountWidth::U16, 2),
        Item::Unused(22),
        strings(0),
        Item::Pad,
    ];
    reply(LIST_FONTS, items)
}

/// Sets the path in which fonts are looked for: the number of its
/// entries, and after two unused bytes the entries, each with its length
/// in its first byte.
pub fn set_font_path() -> (definition: Struct)
    ensures
        definition.well_formed(),
        definition.metadata == StructMetadata::Request(
            Request { major_opcode: 51, minor_opcode: None, reply: None },
        ),
        definition.items@ == seq![
            count(CountWidth::U16, 2),
            Item::Unused(2),
            strings(0),
            Item::Pad,
        ],
{
    let items = vec![
        count(CountWidth::U16, 2),
        Item::Unused(2),
        strings(0),
        Item::Pad,
    ];
    request(51, None, items)
}

/// Creates a pixmap: the ID for it, the drawable, and its size. The depth
/// travels in the header.
pub fn create_pixmap() -> (definition: Struct)
    ensures
        definition.well_formed(),
        definition.metadata == StructMetadata::Request(
            Request { major_opcode: 53, minor_opcode: None, reply: None },
        ),
        definition.items@ == seq![
            metabyte(),
            field(4),
            field(4),
            field(2),
            field(2),
        ],
{
    let items = vec![
        metabyte(),
        field(4),
        field(4),
        field(2),
        field(2),
    ];
    request(53, None, items)
}

/// Frees a pixmap.
pub fn free_pixmap() -> (definition: Struct)
    ensures
        definition.well_formed(),
        definition.metadata == StructMetadata::Request(
            Request { major_opcode: 54, minor_opcode: None, reply: None },
        ),
        definition.items@ == seq![
            field(4),
        ],
{
    let items = vec![
        field(4),
    ];
    request(54, None, items)
}

/// Creates a graphics context: the ID for it, the drawable, the mask of
/// the values, and the values, which take the rest of the request.
pub fn create_graphics_context() -> (definition: Struct)
    ensures
        definition.well_formed(),
        definition.metadata == StructMetadata::Request(
            Request { major_opcode: 55, minor_opcode: None, reply: None },
        ),
        definition.items@ == seq![
            field(4),
            field(4),
            field(4),
            Item::Rest,
        ],
{
    let items = vec![
        field(4),
        field(4),
        field(4),
        Item::Rest,
    ];
    request(55, None, items)
}

/// Changes a graphics context: the context, the mask of the values, and
/// the values, which take the rest of the request.
pub fn change_graphics_context() -> (definition: Struct)
    ensures
        definition.well_formed(),
        definition.metadata == StructMetadata::Request(
            Request { major_opcode: 56, minor_opcode: None, reply: None },
        ),
        definition.items@ == seq![
            field(4),
            field(4),
            Item::Rest,
        ],
{
    let items = vec![
        field(4),
        field(4),
        Item::Rest,
    ];
    request(56, None, items)
}

/// Copies values from one graphics context to another: the two contexts
/// and the mask of the values.
pub fn copy_graphics_context() -> (definition: Struct)
    ensures
        definition.well_formed(),
        definition.metadata == StructMetadata::Request(
            Request { major_opcode: 57, minor_opcode: None, reply: None },
        ),
        definition.items@ == seq![
            field(4),
            field(4),
            field(4),
        ],
{
    let items = vec![
        field(4),
        field(4),
        field(4),
    ];
    request(57, None, items)
}

/// Sets the dashes of a graphics context: the context, the offset, the
/// number of the dashes, and the dashes.
pub fn set_dashes() -> (definition: Struct)
    ensures
        definition.well_formed(),
        definition.metadata == StructMetadata::Request(
            Request { major_opcode: 58, minor_opcode: None, reply: None },
        ),
        definition.items@ == seq![
            field(4),
            field(2),
            count(CountWidth::U16, 3),
            list(2, 1),
            Item::Pad,
        ],
{
    let items = vec![
        field(4),
        field(2),
        count(CountWidth::U16, 3),
        list(2, 1),
        Item::Pad,
    ];
    request(58, None, items)
}

/// Sets the rectangles that a graphics context clips to: the context, the
/// origin, and the rectangles, which take the rest of the request. Their
/// ordering travels in the header.
pub fn set_clip_rectangles() -> (definition: Struct)
    ensures
        definition.well_formed(),
        definition.metadata == StructMetadata::Request(
            Request { major_opcode: 59, minor_opcode: None, reply: None },
        ),
        definition.items@ == seq![
            metabyte(),
            field(4),
            field(2),
            field(2),
            Item::Rest,
        ],
{
    let items = vec![
        metabyte(),
        field(4),
        field(2),
        field(2),
        Item::Rest,
    ];
    request(59, None, items)
}

/// Frees a graphics context.
pub fn free_graphics_context() -> (definition: Struct)
    ensures
        definition.well_formed(),
        definition.metadata == StructMetadata::Request(
            Request { major_opcode: 60, minor_opcode: None, reply: None },
        ),
        definition.items@ == seq![
            field(4),
        ],
{
    let items = vec![
        field(4),
    ];
    request(60, None, items)
}

/// Clears an area of a window: the window and the area. Whether exposure
/// events are made travels in the header.
pub fn clear_area() -> (definition: Struct)
    ensures
        definition.well_formed(),
        definition.metadata == StructMetadata::Request(
            Request { major_opcode: 61, minor_opcode: None, reply: None },
        ),
        definition.items@ == seq![
            metabyte(),
            field(4),
            field(2),
            field(2),
            field(2),
            field(2),
        ],
{
    let items = vec![
        metabyte(),
        field(4),
        field(2),
        field(2),
        field(2),
        field(2),
    ];
    request(61, None, items)
}

/// Copies an area: the two drawables, the context, the two places and the
/// size.
pub fn copy_area() -> (definition: Struct)
    ensures
        definition.well_formed(),
        definition.metadata == StructMetadata::Request(
            Request { major_opcode: 62, minor_opcode: None, reply: None },
        ),
        definition.items@ == seq![
            field(4),
            field(4),
            field(4),
            field(2),
            field(2),
            field(2),
            field(2),
            field(2),
            field(2),
        ],
{
    let items = vec![
        field(4),
        field(4),
        field(4),
        field(2),
        field(2),
        field(2),
        field(2),
        field(2),
        field(2),
    ];
    request(62, None, items)
}

/// Copies a bit plane of an area: the two drawables, the context, the two
/// places, the size and the plane.
pub fn copy_plane() -> (definition: Struct)
    ensures
        definition.well_formed(),
        definition.metadata == StructMetadata::Request(
            Request { major_opcode: 63, minor_opcode: None, reply: None },
        ),
        definition.items@ == seq![
            field(4),
            field(4),
            field(4),
            field(2),
            field(2),
            field(2),
            field(2),
            field(2),
            field(2),
            field(4),
        ],
{
    let items = vec![
        field(4),
        field(4),
        field(4),
        field(2),
        field(2),
        field(2),
        field(2),
        field(2),
        field(2),
        field(4),
    ];
    request(63, None, items)
}

/// Draws points: the drawable, the context, and the points, which take the
/// rest of the request. How their coordinates are meant travels in the
/// header.
pub fn poly_point() -> (definition: Struct)
    ensures
        definition.well_formed(),
        definition.metadata == StructMetadata::Request(
            Request { major_opcode: 64, minor_opcode: None, reply: None },
        ),
        definition.items@ == seq![
            metabyte(),
            field(4),
            field(4),
            Item::Rest,
        ],
{
    let items = vec![
        metabyte(),
        field(4),
        field(4),
        Item::Rest,
    ];
    request(64, None, items)
}

/// Draws lines from point to point: the drawable, the context, and the
/// points, which take the rest of the request. How their coordinates are
/// meant travels in the header.
pub fn poly_line() -> (definition: Struct)
    ensures
        definition.well_formed(),
        definition.metadata == StructMetadata::Request(
            Request { major_opcode: 65, minor_opcode: None, reply: None },
        ),
        definition.items@ == seq![
            metabyte(),
            field(4),
            field(4),
            Item::Rest,
        ],
{
    let items = vec![
        metabyte(),
        field(4),
        field(4),
        Item::Rest,
    ];
    request(65, None, items)
}

/// Draws segments: the drawable, the context, and the segments, which take
/// the rest of the request.
pub fn poly_segment() -> (definition: Struct)
    ensures
        definition.well_formed(),
        definition.metadata == StructMetadata::Request(
            Request { major_opcode: 66, minor_opcode: None, reply: None },
        ),
        definition.items@ == seq![
            field(4),
            field(4),
            Item::Rest,
        ],
{
    let items = vec![
        field(4),
        field(4),
        Item::Rest,
    ];
    request(66, None, items)
}

/// Draws rectangles: the drawable, the context, and the rectangles, which
/// take the rest of the request.
pub fn poly_rectangle() -> (definition: Struct)
    ensures
        definition.well_formed(),
        definition.metadata == StructMetadata::Request(
            Request { major_opcode: 67, minor_opcode: None, reply: None },
        ),
        definition.items@ == seq![
            field(4),
            field(4),
            Item::Rest,
        ],
{
    let items = vec![
        field(4),
        field(4),
        Item::Rest,
    ];
    request(67, None, items)
}

/// Draws arcs: the drawable, the context, and the arcs, which take the rest
/// of the request.
pub fn poly_arc() -> (definition: Struct)
    ensures
        definition.well_formed(),
        definition.metadata == StructMetadata::Request(
            Request { major_opcode: 68, minor_opcode: None, reply: None },
        ),
        definition.items@ == seq![
            field(4),
            field(4),
            Item::Rest,
        ],
{
    let items = vec![
        field(4),
        field(4),
        Item::Rest,
    ];
    request(68, None, items)
}

/// Fills a polygon: the drawable, the context, the shape, how the
/// coordinates are meant, and after two unused bytes the points, which
/// take the rest of the request.
pub fn fill_poly() -> (definition: Struct)
    ensures
        definition.well_formed(),
        definition.metadata == StructMetadata::Request(
            Request { major_opcode: 69, minor_opcode: None, reply: None },
        ),
        definition.items@ == seq![
            field(4),
            field(4),
            field(1),
            field(1),
            Item::Unused(2),
            Item::Rest,
        ],
{
    let items = vec![
        field(4),
        field(4),
        field(1),
        field(1),
        Item::Unused(2),
        Item::Rest,
    ];
    request(69, None, items)
}

/// Fills rectangles: the drawable, the context, and the rectangles, which
/// take the rest of the request.
pub fn poly_fill_rectangle() -> (definition: Struct)
    ensures
        definition.well_formed(),
        definition.metadata == StructMetadata::Request(
            Request { major_opcode: 70, minor_opcode: None, reply: None },
        ),
        definition.items@ == seq![
            field(4),
            field(4),
            Item::Rest,
        ],
{
    let items = vec![
        field(4),
        field(4),
        Item::Rest,
    ];
    request(70, None, items)
}

/// Fills arcs: the drawable, the context, and the arcs, which take the rest
/// of the request.
pub fn poly_fill_arc() -> (definition: Struct)
    ensures
        definition.well_formed(),
        definition.metadata == StructMetadata::Request(
            Request { major_opcode: 71, minor_opcode: None, reply: None },
        ),
        definition.items@ == seq![
            field(4),
            field(4),
            Item::Rest,
        ],
{
    let items = vec![
        field(4),
        field(4),
        Item::Rest,
    ];
    request(71, None, items)
}

/// Puts an image into a drawable: the drawable, the context, the size, the
/// place, the padding on the left, the depth, and after two unused bytes
/// the data, which takes the rest of the request. The format travels in
/// the header.
pub fn put_image() -> (definition: Struct)
    ensures
        definition.well_formed(),
        definition.metadata == StructMetadata::Request(
            Request { major_opcode: 72, minor_opcode: None, reply: None },
        ),
        definition.items@ == seq![
            metabyte(),
            field(4),
            field(4),
            field(2),
            field(2),
            field(2),
            field(2),
            field(1),
            field(1),
            Item::Unused(2),
            Item::Rest,
        ],
{
    let items = vec![
        metabyte(),
        field(4),
        field(4),
        field(2),
        field(2),
        field(2),
        field(2),
        field(1),
        field(1),
        Item::Unused(2),
        Item::Rest,
    ];
    request(72, None, items)
}

/// Asks for an image of an area of a drawable: the drawable, the area and
/// the mask of the planes. The format travels in the header.
pub fn get_image() -> (definition: Struct)
    ensures
        definition.well_formed(),
        definition.metadata == StructMetadata::Request(
            Request { major_opcode: 73, minor_opcode: None, reply: Some(GET_IMAGE_REPLY) },
        ),
        definition.items@ == seq![
            metabyte(),
            field(4),
            field(2),
            field(2),
            field(2),
            field(2),
            field(4),
        ],
{
    let items = vec![
        metabyte(),
        field(4),
        field(2),
        field(2),
        field(2),
        field(2),
        field(4),
    ];
    request(73, Some(GET_IMAGE_REPLY), items)
}

/// The image: the visual, and after twenty unused bytes the data, which
/// takes the rest of the reply. The depth travels in the header.
pub fn get_image_reply() -> (definition: Struct)
    ensures
        definition.well_formed(),
        definition.metadata == StructMetadata::Reply(
            Reply { sequence: true, request: GET_IMAGE },
        ),
        definition.items@ == seq![
            metabyte(),
            field(4),
            Item::Unused(20),
            Item::Rest,
        ],
{
    let items = vec![
        metabyte(),
        field(4),
        Item::Unused(20),
        Item::Rest,
    ];
    reply(GET_IMAGE, items)
}

/// Draws text of one-byte characters: the drawable, the context, the
/// place, and the pieces of the text, which take the rest of the request.
pub fn poly_text8() -> (definition: Struct)
    ensures
        definition.well_formed(),
        definition.metadata == StructMetadata::Request(
            Request { major_opcode: 74, minor_opcode: None, reply: None },
        ),
        definition.items@ == seq![
            field(4),
            field(4),
            field(2),
            field(2),
            Item::Rest,
        ],
{
    let items = vec![
        field(4),
        field(4),
        field(2),
        field(2),
        Item::Rest,
    ];
    request(74, None, items)
}

/// Draws text of two-byte characters: the drawable, the context, the
/// place, and the pieces of the text, which take the rest of the request.
pub fn poly_text16() -> (definition: Struct)
    ensures
        definition.well_formed(),
        definition.metadata == StructMetadata::Request(
            Request { major_opcode: 75, minor_opcode: None, reply: None },
        ),
        definition.items@ == seq![
            field(4),
            field(4),
            field(2),
            field(2),
            Item::Rest,
        ],
{
    let items = vec![
        field(4),
        field(4),
        field(2),
        field(2),
        Item::Rest,
    ];
    request(75, None, items)
}

/// Draws a string of one-byte characters on its background: the drawable,
/// the context, the place, and the string. The length of the string
/// travels in the header.
pub fn image_text8() -> (definition: Struct)
    ensures
        definition.well_formed(),
        definition.metadata == StructMetadata::Request(
            Request { major_opcode: 76, minor_opcode: None, reply: None },
        ),
        definition.items@ == seq![
            counted_in_header(5),
            field(4),
            field(4),
            field(2),
            field(2),
            list(0, 1),
            Item::Pad,
        ],
{
    let items = vec![
        counted_in_header(5),
        field(4),
        field(4),
        field(2),
        field(2),
        list(0, 1),
        Item::Pad,
    ];
    request(76, None, items)
}

/// Draws a string of two-byte characters on its background: the drawable,
/// the context, the place, and the string. The number of its characters
/// travels in the header.
pub fn image_text16() -> (definition: Struct)
    ensures
        definition.well_formed(),
        definition.metadata == StructMetadata::Request(
            Request { major_opcode: 77, minor_opcode: None, reply: None },
        ),
        definition.items@ == seq![
            counted_in_header(5),
            field(4),
            field(4),
            field(2),
            field(2),
            list(0, 2),
            Item::Pad,
        ],
{
    let items = vec![
        counted_in_header(5),
        field(4),
        field(4),
        field(2),
        field(2),
        list(0, 2),
        Item::Pad,
    ];
    request(77, None, items)
}

/// Creates a colormap: the ID for it, the window and the visual. Whether
/// its entries are allocated travels in the header.
pub fn create_colormap() -> (definition: Struct)
    ensures
        definition.well_formed(),
        definition.metadata == StructMetadata::Request(
            Request { major_opcode: 78, minor_opcode: None, reply: None },
        ),
        definition.items@ == seq![
            metabyte(),
            field(4),
            field(4),
            field(4),
        ],
{
    let items = vec![
        metabyte(),
        field(4),
        field(4),
        field(4),
    ];
    request(78, None, items)
}

/// Frees a colormap.
pub fn free_colormap() -> (definition: Struct)
    ensures
        definition.well_formed(),
        definition.metadata == StructMetadata::Request(
            Request { major_opcode: 79, minor_opcode: None, reply: None },
        ),
        definition.items@ == seq![
            field(4),
        ],
{
    let items = vec![
        field(4),
    ];
    request(79, None, items)
}

/// Copies a colormap and frees what it held: the ID for the copy and the
/// colormap.
pub fn copy_colormap_and_free() -> (definition: Struct)
    ensures
        definition.well_formed(),
        definition.metadata == StructMetadata::Request(
            Request { major_opcode: 80, minor_opcode: None, reply: None },
        ),
        definition.items@ == seq![
            field(4),
            field(4),
        ],
{
    let items = vec![
        field(4),
        field(4),
    ];
    request(80, None, items)
}

/// Installs a colormap.
pub fn install_colormap() -> (definition: Struct)
    ensures
        definition.well_formed(),
        definition.metadata == StructMetadata::Request(
            Request { major_opcode: 81, minor_opcode: None, reply: None },
        ),
        definition.items@ == seq![
            field(4),
        ],
{
    let items = vec![
        field(4),
    ];
    request(81, None, items)
}

/// Uninstalls a colormap.
pub fn uninstall_colormap() -> (definition: Struct)
    ensures
        definition.well_formed(),
        definition.metadata == StructMetadata::Request(
            Request { major_opcode: 82, minor_opcode: None, reply: None },
        ),
        definition.items@ == seq![
            field(4),
        ],
{
    let items = vec![
        field(4),
    ];
    request(82, None, items)
}

/// Asks for the colormaps that are installed for the screen of a window.
pub fn list_installed_colormaps() -> (definition: Struct)
    ensures
        definition.well_formed(),
        definition.metadata == StructMetadata::Request(
            Request {
                major_opcode: 83,
                minor_opcode: None,
                reply: Some(LIST_INSTALLED_COLORMAPS_REPLY),
            },
        ),
        definition.items@ == seq![
            field(4),
        ],
{
    let items = vec![
        field(4),
    ];
    request(83, Some(LIST_INSTALLED_COLORMAPS_REPLY), items)
}

/// The colormaps that are installed: their number, and after 22 unused
/// bytes the colormaps.
pub fn list_installed_colormaps_reply() -> (definition: Struct)
    ensures
        definition.well_formed(),
        definition.metadata == StructMetadata::Reply(
            Reply { sequence: true, request: LIST_INSTALLED_COLORMAPS },
        ),
        definition.items@ == seq![
            count(CountWidth::U16, 2),
            Item::Unused(22),
            list(0, 4),
        ],
{
    let items = vec![
        count(CountWidth::U16, 2),
        Item::Unused(22),
        list(0, 4),
    ];
    reply(LIST_INSTALLED_COLORMAPS, items)
}

/// Allocates a color: the colormap and the color.
pub fn alloc_color() -> (definition: Struct)
    ensures
        definition.well_formed(),
        definition.metadata == StructMetadata::Request(
            Request { major_opcode: 84, minor_opcode: None, reply: Some(ALLOC_COLOR_REPLY) },
        ),
        definition.items@ == seq![
            field(4),
            field(6),
            Item::Pad,
        ],
{
    let items = vec![
        field(4),
        field(6),
        Item::Pad,
    ];
    request(84, Some(ALLOC_COLOR_REPLY), items)
}

/// The color that was allocated, and after two unused bytes its pixel.
pub fn alloc_color_reply() -> (definition: Struct)
    ensures
        definition.well_formed(),
        definition.metadata == StructMetadata::Reply(
            Reply { sequence: true, request: ALLOC_COLOR },
        ),
        definition.items@ == seq![
            field(6),
            Item::Unused(2),
            field(4),
            Item::Pad,
        ],
{
    let items = vec![
        field(6),
        Item::Unused(2),
        field(4),
        Item::Pad,
    ];
    reply(ALLOC_COLOR, items)
}

/// Allocates a color by its name: the colormap, the length of the name,
/// and after two unused bytes the name.
pub fn alloc_named_color() -> (definition: Struct)
    ensures
        definition.well_formed(),
        definition.metadata == StructMetadata::Request(
            Request { major_opcode: 85, minor_opcode: None, reply: Some(ALLOC_NAMED_COLOR_REPLY) },
        ),
        definition.items@ == seq![
            field(4),
            count(CountWidth::U16, 3),
            Item::Unused(2),
            list(1, 1),
            Item::Pad,
        ],
{
    let items = vec![
        field(4),
        count(CountWidth::U16, 3),
        Item::Unused(2),
        list(1, 1),
        Item::Pad,
    ];
    request(85, Some(ALLOC_NAMED_COLOR_REPLY), items)
}

/// The pixel of the color, the color as it was named and as it is shown.
pub fn alloc_named_color_reply() -> (definition: Struct)
    ensures
        definition.well_formed(),
        definition.metadata == StructMetadata::Reply(
            Reply { sequence: true, request: ALLOC_NAMED_COLOR },
        ),
        definition.items@ == seq![
            field(4),
            field(6),
            field(6),
            Item::Pad,
        ],
{
    let items = vec![
        field(4),
        field(6),
        field(6),
        Item::Pad,
    ];
    reply(ALLOC_NAMED_COLOR, items)
}

/// Allocates cells of a colormap: the colormap, the number of colors and
/// that of planes. Whether the planes must be contiguous travels in the
/// header.
pub fn alloc_color_cells() -> (definition: Struct)
    ensures
        definition.well_formed(),
        definition.metadata == StructMetadata::Request(
            Request { major_opcode: 86, minor_opcode: None, reply: Some(ALLOC_COLOR_CELLS_REPLY) },
        ),
        definition.items@ == seq![
            metabyte(),
            field(4),
            field(2),
            field(2),
        ],
{
    let items = vec![
        metabyte(),
        field(4),
        field(2),
        field(2),
    ];
    request(86, Some(ALLOC_COLOR_CELLS_REPLY), items)
}

/// The cells that were allocated: the number of the pixels and that of the
/// masks, and after twenty unused bytes the pixels and the masks.
pub fn alloc_color_cells_reply() -> (definition: Struct)
    ensures
        definition.well_formed(),
        definition.metadata == StructMetadata::Reply(
            Reply { sequence: true, request: ALLOC_COLOR_CELLS },
        ),
        definition.items@ == seq![
            count(CountWidth::U16, 3),
            count(CountWidth::U16, 4),
            Item::Unused(20),
            list(0, 4),
            list(1, 4),
        ],
{
    let items = vec![
        count(CountWidth::U16, 3),
        count(CountWidth::U16, 4),
        Item::Unused(20),
        list(0, 4),
        list(1, 4),
    ];
    reply(ALLOC_COLOR_CELLS, items)
}

/// Allocates planes of a colormap: the colormap, the number of colors, and
/// the number of planes for each of red, green and blue. Whether the
/// planes must be contiguous travels in the header.
pub fn alloc_color_planes() -> (definition: Struct)
    ensures
        definition.well_formed(),
        definition.metadata == StructMetadata::Request(
            Request { major_opcode: 87, minor_opcode: None, reply: Some(ALLOC_COLOR_PLANES_REPLY) },
        ),
        definition.items@ == seq![
            metabyte(),
            field(4),
            field(2),
            field(6),
        ],
{
    let items = vec![
        metabyte(),
        field(4),
        field(2),
        field(6),
    ];
    request(87, Some(ALLOC_COLOR_PLANES_REPLY), items)
}

/// The planes that were allocated: the number of the pixels, two unused
/// bytes, the masks of red, green and blue, eight unused bytes, and the
/// pixels.
pub fn alloc_color_planes_reply() -> (definition: Struct)
    ensures
        definition.well_formed(),
        definition.metadata == StructMetadata::Reply(
            Reply { sequence: true, request: ALLOC_COLOR_PLANES },
        ),
        definition.items@ == seq![
            count(CountWidth::U16, 6),
            Item::Unused(2),
            field(4),
            field(4),
            field(4),
            Item::Unused(8),
            list(0, 4),
        ],
{
    let items = vec![
        count(CountWidth::U16, 6),
        Item::Unused(2),
        field(4),
        field(4),
        field(4),
        Item::Unused(8),
        list(0, 4),
    ];
    reply(ALLOC_COLOR_PLANES, items)
}

/// Frees colors: the colormap, the mask of the planes, and the pixels,
/// which take the rest of the request.
pub fn free_colors() -> (definition: Struct)
    ensures
        definition.well_formed(),
        definition.metadata == StructMetadata::Request(
            Request { major_opcode: 88, minor_opcode: None, reply: None },
        ),
        definition.items@ == seq![
            field(4),
            field(4),
            Item::Rest,
        ],
{
    let items = vec![
        field(4),
        field(4),
        Item::Rest,
    ];
    request(88, None, items)
}

/// Stores colors in a colormap: the colormap, and the colors with their
/// pixels, which take the rest of the request.
pub fn store_colors() -> (definition: Struct)
    ensures
        definition.well_formed(),
        definition.metadata == StructMetadata::Request(
            Request { major_opcode: 89, minor_opcode: None, reply: None },
        ),
        definition.items@ == seq![
            field(4),
            Item::Rest,
        ],
{
    let items = vec![
        field(4),
        Item::Rest,
    ];
    request(89, None, items)
}

/// Stores a color by its name: the colormap, the pixel, the length of the
/// name, and after two unused bytes the name. Which of red, green and
/// blue are stored travels in the header.
pub fn store_named_color() -> (definition: Struct)
    ensures
        definition.well_formed(),
        definition.metadata == StructMetadata::Request(
            Request { major_opcode: 90, minor_opcode: None, reply: None },
        ),
        definition.items@ == seq![
            metabyte(),
            field(4),
            field(4),
            count(CountWidth::U16, 5),
            Item::Unused(2),
            list(3, 1),
            Item::Pad,
        ],
{
    let items = vec![
        metabyte(),
        field(4),
        field(4),
        count(CountWidth::U16, 5),
        Item::Unused(2),
        list(3, 1),
        Item::Pad,
    ];
    request(90, None, items)
}

/// Asks for the color of a name: the colormap, the length of the name, and
/// after two unused bytes the name.
pub fn lookup_color() -> (definition: Struct)
    ensures
        definition.well_formed(),
        definition.metadata == StructMetadata::Request(
            Request { major_opcode: 92, minor_opcode: None, reply: Some(LOOKUP_COLOR_REPLY) },
        ),
        definition.items@ == seq![
            field(4),
            count(CountWidth::U16, 3),
            Item::Unused(2),
            list(1, 1),
            Item::Pad,
        ],
{
    let items = vec![
        field(4),
        count(CountWidth::U16, 3),
        Item::Unused(2),
        list(1, 1),
        Item::Pad,
    ];
    request(92, Some(LOOKUP_COLOR_REPLY), items)
}

/// The color as it was named and as it is shown.
pub fn lookup_color_reply() -> (definition: Struct)
    ensures
        definition.well_formed(),
        definition.metadata == StructMetadata::Reply(
            Reply { sequence: true, request: LOOKUP_COLOR },
        ),
        definition.items@ == seq![
            field(6),
            field(6),
            Item::Pad,
        ],
{
    let items = vec![
        field(6),
        field(6),
        Item::Pad,
    ];
    reply(LOOKUP_COLOR, items)
}

/// Creates a cursor: the ID for it, the source and the mask, the colors of
/// the foreground and the background, and the hot spot.
pub fn create_cursor() -> (definition: Struct)
    ensures
        definition.well_formed(),
        definition.metadata == StructMetadata::Request(
            Request { major_opcode: 93, minor_opcode: None, reply: None },
        ),
        definition.items@ == seq![
            field(4),
            field(4),
            field(4),
            field(6),
            field(6),
            field(2),
            field(2),
        ],
{
    let items = vec![
        field(4),
        field(4),
        field(4),
        field(6),
        field(6),
        field(2),
        field(2),
    ];
    request(93, None, items)
}

/// Creates a cursor from glyphs: the ID for it, the two fonts, the two
/// characters, and the colors of the foreground and the background.
pub fn create_glyph_cursor() -> (definition: Struct)
    ensures
        definition.well_formed(),
        definition.metadata == StructMetadata::Request(
            Request { major_opcode: 94, minor_opcode: None, reply: None },
        ),
        definition.items@ == seq![
            field(4),
            field(4),
            field(4),
            field(2),
            field(2),
            field(6),
            field(6),
        ],
{
    let items = vec![
        field(4),
        field(4),
        field(4),
        field(2),
        field(2),
        field(6),
        field(6),
    ];
    request(94, None, items)
}

/// Frees a cursor.
pub fn free_cursor() -> (definition: Struct)
    ensures
        definition.well_formed(),
        definition.metadata == StructMetadata::Request(
            Request { major_opcode: 95, minor_opcode: None, reply: None },
        ),
        definition.items@ == seq![
            field(4),
        ],
{
    let items = vec![
        field(4),
    ];
    request(95, None, items)
}

/// Changes the colors of a cursor: the cursor, and the colors of the
/// foreground and the background.
pub fn recolor_cursor() -> (definition: Struct)
    ensures
        definition.well_formed(),
        definition.metadata == StructMetadata::Request(
            Request { major_opcode: 96, minor_opcode: None, reply: None },
        ),
        definition.items@ == seq![
            field(4),
            field(6),
            field(6),
        ],
{
    let items = vec![
        field(4),
        field(6),
        field(6),
    ];
    request(96, None, items)
}

/// Asks for the size closest to a given one that suits best: the drawable
/// and the size. What the size is for travels in the header.
pub fn query_best_size() -> (definition: Struct)
    ensures
        definition.well_formed(),
        definition.metadata == StructMetadata::Request(
            Request { major_opcode: 97, minor_opcode: None, reply: Some(QUERY_BEST_SIZE_REPLY) },
        ),
        definition.items@ == seq![
            metabyte(),
            field(4),
            field(2),
            field(2),
        ],
{
    let items = vec![
        metabyte(),
        field(4),
        field(2),
        field(2),
    ];
    request(97, Some(QUERY_BEST_SIZE_REPLY), items)
}

/// The size that suits best.
pub fn query_best_size_reply() -> (definition: Struct)
    ensures
        definition.well_formed(),
        definition.metadata == StructMetadata::Reply(
            Reply { sequence: true, request: QUERY_BEST_SIZE },
        ),
        definition.items@ == seq![
            field(2),
            field(2),
            Item::Pad,
        ],
{
    let items = vec![
        field(2),
        field(2),
        Item::Pad,
    ];
    reply(QUERY_BEST_SIZE, items)
}

/// Asks whether an extension is there: the length of its name, and after
/// two unused bytes the name.
pub fn query_extension() -> (definition: Struct)
    ensures
        definition.well_formed(),
        definition.metadata == StructMetadata::Request(
            Request { major_opcode: 98, minor_opcode: None, reply: Some(QUERY_EXTENSION_REPLY) },
        ),
        definition.items@ == seq![
            count(CountWidth::U16, 2),
            Item::Unused(2),
            list(0, 1),
            Item::Pad,
        ],
{
    let items = vec![
        count(CountWidth::U16, 2),
        Item::Unused(2),
        list(0, 1),
        Item::Pad,
    ];
    request(98, Some(QUERY_EXTENSION_REPLY), items)
}

/// The major opcode, the first event and the first error of the extension.
/// Whether it is there travels in the header.
pub fn query_extension_reply() -> (definition: Struct)
    ensures
        definition.well_formed(),
        definition.metadata == StructMetadata::Reply(
            Reply { sequence: true, request: QUERY_EXTENSION },
        ),
        definition.items@ == seq![
            metabyte(),
            field(1),
            field(1),
            field(1),
            Item::Pad,
        ],
{
    let items = vec![
        metabyte(),
        field(1),
        field(1),
        field(1),
        Item::Pad,
    ];
    reply(QUERY_EXTENSION, items)
}

/// Asks for the names of the extensions.
pub fn list_extensions() -> (definition: Struct)
    ensures
        definition.well_formed(),
        definition.metadata == StructMetadata::Request(
            Request { major_opcode: 99, minor_opcode: None, reply: Some(LIST_EXTENSIONS_REPLY) },
        ),
        definition.items@ == Seq::<Item>::empty(),
{
    let items = Vec::new();
    request(99, Some(LIST_EXTENSIONS_REPLY), items)
}

/// The names of the extensions, each with its length in its first byte,
/// after 24 unused bytes. Their number travels in the header.
pub fn list_extensions_reply() -> (definition: Struct)
    ensures
        definition.well_formed(),
        definition.metadata == StructMetadata::Reply(
            Reply { sequence: true, request: LIST_EXTENSIONS },
        ),
        definition.items@ == seq![
            counted_in_header(2),
            Item::Unused(24),
            strings(0),
            Item::Pad,
        ],
{
    let items = vec![
        counted_in_header(2),
        Item::Unused(24),
        strings(0),
        Item::Pad,
    ];
    reply(LIST_EXTENSIONS, items)
}

/// Asks how the keyboard is set.
pub fn get_keyboard_control() -> (definition: Struct)
    ensures
        definition.well_formed(),
        definition.metadata == StructMetadata::Request(
            Request {
                major_opcode: 103,
                minor_opcode: None,
                reply: Some(GET_KEYBOARD_CONTROL_REPLY),
            },
        ),
        definition.items@ == Seq::<Item>::empty(),
{
    let items = Vec::new();
    request(103, Some(GET_KEYBOARD_CONTROL_REPLY), items)
}

/// How the keyboard is set: the mask of the lights, the volume of the
/// click and of the bell, the pitch and the duration of the bell, and
/// after two unused bytes a bit for each key that repeats. Whether keys
/// repeat at all travels in the header.
pub fn get_keyboard_control_reply() -> (definition: Struct)
    ensures
        definition.well_formed(),
        definition.metadata == StructMetadata::Reply(
            Reply { sequence: true, request: GET_KEYBOARD_CONTROL },
        ),
        definition.items@ == seq![
            metabyte(),
            field(4),
            field(1),
            field(1),
            field(2),
            field(2),
            Item::Unused(2),
            field(32),
        ],
{
    let items = vec![
        metabyte(),
        field(4),
        field(1),
        field(1),
        field(2),
        field(2),
        Item::Unused(2),
        field(32),
    ];
    reply(GET_KEYBOARD_CONTROL, items)
}

/// Rings the bell. The volume travels in the header.
pub fn bell() -> (definition: Struct)
    ensures
        definition.well_formed(),
        definition.metadata == StructMetadata::Request(
            Request { major_opcode: 104, minor_opcode: None, reply: None },
        ),
        definition.items@ == seq![
            metabyte(),
        ],
{
    let items = vec![
        metabyte(),
    ];
    request(104, None, items)
}

/// Changes how the pointer moves: the acceleration as a fraction, the
/// threshold, and which of the two are to be set.
pub fn change_pointer_control() -> (definition: Struct)
    ensures
        definition.well_formed(),
        definition.metadata == StructMetadata::Request(
            Request { major_opcode: 105, minor_opcode: None, reply: None },
        ),
        definition.items@ == seq![
            field(2),
            field(2),
            field(2),
            field(1),
            field(1),
        ],
{
    let items = vec![
        field(2),
        field(2),
        field(2),
        field(1),
        field(1),
    ];
    request(105, None, items)
}

/// Asks how the pointer moves.
pub fn get_pointer_control() -> (definition: Struct)
    ensures
        definition.well_formed(),
        definition.metadata == StructMetadata::Request(
            Request {
                major_opcode: 106,
                minor_opcode: None,
                reply: Some(GET_POINTER_CONTROL_REPLY),
            },
        ),
        definition.items@ == Seq::<Item>::empty(),
{
    let items = Vec::new();
    request(106, Some(GET_POINTER_CONTROL_REPLY), items)
}

/// How the pointer moves: the acceleration as a fraction, and the
/// threshold.
pub fn get_pointer_control_reply() -> (definition: Struct)
    ensures
        definition.well_formed(),
        definition.metadata == StructMetadata::Reply(
            Reply { sequence: true, request: GET_POINTER_CONTROL },
        ),
        definition.items@ == seq![
            field(2),
            field(2),
            field(2),
            Item::Pad,
        ],
{
    let items = vec![
        field(2),
        field(2),
        field(2),
        Item::Pad,
    ];
    reply(GET_POINTER_CONTROL, items)
}

/// Sets the screen saver: the timeout, the interval, and whether it blanks
/// and whether it allows exposures.
pub fn set_screen_saver() -> (definition: Struct)
    ensures
        definition.well_formed(),
        definition.metadata == StructMetadata::Request(
            Request { major_opcode: 107, minor_opcode: None, reply: None },
        ),
        definition.items@ == seq![
            field(2),
            field(2),
            field(1),
            field(1),
            Item::Pad,
        ],
{
    let items = vec![
        field(2),
        field(2),
        field(1),
        field(1),
        Item::Pad,
    ];
    request(107, None, items)
}

/// Asks how the screen saver is set.
pub fn get_screen_saver() -> (definition: Struct)
    ensures
        definition.well_formed(),
        definition.metadata == StructMetadata::Request(
            Request { major_opcode: 108, minor_opcode: None, reply: Some(GET_SCREEN_SAVER_REPLY) },
        ),
        definition.items@ == Seq::<Item>::empty(),
{
    let items = Vec::new();
    request(108, Some(GET_SCREEN_SAVER_REPLY), items)
}

/// How the screen saver is set: the timeout, the interval, and whether it
/// blanks and whether it allows exposures.
pub fn get_screen_saver_reply() -> (definition: Struct)
    ensures
        definition.well_formed(),
        definition.metadata == StructMetadata::Reply(
            Reply { sequence: true, request: GET_SCREEN_SAVER },
        ),
        definition.items@ == seq![
            field(2),
            field(2),
            field(1),
            field(1),
            Item::Pad,
        ],
{
    let items = vec![
        field(2),
        field(2),
        field(1),
        field(1),
        Item::Pad,
    ];
    reply(GET_SCREEN_SAVER, items)
}

/// Adds a host to the access list or takes it out: the family of its
/// address, one unused byte, the length of the address, and the address.
/// Which of the two travels in the header.
pub fn change_hosts() -> (definition: Struct)
    ensures
        definition.well_formed(),
        definition.metadata == StructMetadata::Request(
            Request { major_opcode: 109, minor_opcode: None, reply: None },
        ),
        definition.items@ == seq![
            metabyte(),
            field(1),
            Item::Unused(1),
            count(CountWidth::U16, 4),
            list(3, 1),
            Item::Pad,
        ],
{
    let items = vec![
        metabyte(),
        field(1),
        Item::Unused(1),
        count(CountWidth::U16, 4),
        list(3, 1),
        Item::Pad,
    ];
    request(109, None, items)
}

/// Asks for the hosts on the access list.
pub fn list_hosts() -> (definition: Struct)
    ensures
        definition.well_formed(),
        definition.metadata == StructMetadata::Request(
            Request { major_opcode: 110, minor_opcode: None, reply: Some(LIST_HOSTS_REPLY) },
        ),
        definition.items@ == Seq::<Item>::empty(),
{
    let items = Vec::new();
    request(110, Some(LIST_HOSTS_REPLY), items)
}

/// The hosts on the access list: their number, and after 22 unused bytes
/// the hosts, which take the rest of the reply. Whether the list is in
/// force travels in the header.
pub fn list_hosts_reply() -> (definition: Struct)
    ensures
        definition.well_formed(),
        definition.metadata == StructMetadata::Reply(
            Reply { sequence: true, request: LIST_HOSTS },
        ),
        definition.items@ == seq![
            metabyte(),
            field(2),
            Item::Unused(22),
            Item::Rest,
        ],
{
    let items = vec![
        metabyte(),
        field(2),
        Item::Unused(22),
        Item::Rest,
    ];
    reply(LIST_HOSTS, items)
}

/// Puts the access list in force or out of force. Which of the two travels
/// in the header.
pub fn set_access_control() -> (definition: Struct)
    ensures
        definition.well_formed(),
        definition.metadata == StructMetadata::Request(
            Request { major_opcode: 111, minor_opcode: None, reply: None },
        ),
        definition.items@ == seq![
            metabyte(),
        ],
{
    let items = vec![
        metabyte(),
    ];
    request(111, None, items)
}

/// Sets what becomes of the resources of a client when it closes down. The
/// mode travels in the header.
pub fn set_close_down_mode() -> (definition: Struct)
    ensures
        definition.well_formed(),
        definition.metadata == StructMetadata::Request(
            Request { major_opcode: 112, minor_opcode: None, reply: None },
        ),
        definition.items@ == seq![
            metabyte(),
        ],
{
    let items = vec![
        metabyte(),
    ];
    request(112, None, items)
}

/// Rotates the values of properties of a window: the window, the number of
/// the properties, how far to rotate, and the properties.
pub fn rotate_properties() -> (definition: Struct)
    ensures
        definition.well_formed(),
        definition.metadata == StructMetadata::Request(
            Request { major_opcode: 114, minor_opcode: None, reply: None },
        ),
        definition.items@ == seq![
            field(4),
            count(CountWidth::U16, 3),
            field(2),
            list(1, 4),
        ],
{
    let items = vec![
        field(4),
        count(CountWidth::U16, 3),
        field(2),
        list(1, 4),
    ];
    request(114, None, items)
}

/// Turns the screen saver on or off. Which of the two travels in the
/// header.
pub fn force_screen_saver() -> (definition: Struct)
    ensures
        definition.well_formed(),
        definition.metadata == StructMetadata::Request(
            Request { major_opcode: 115, minor_opcode: None, reply: None },
        ),
        definition.items@ == seq![
            metabyte(),
        ],
{
    let items = vec![
        metabyte(),
    ];
    request(115, None, items)
}

/// Sets the mapping of the buttons of the pointer. The length of the map
/// travels in the header.
pub fn set_pointer_mapping() -> (definition: Struct)
    ensures
        definition.well_formed(),
        definition.metadata == StructMetadata::Request(
            Request {
                major_opcode: 116,
                minor_opcode: None,
                reply: Some(SET_POINTER_MAPPING_REPLY),
            },
        ),
        definition.items@ == seq![
            counted_in_header(1),
            list(0, 1),
            Item::Pad,
        ],
{
    let items = vec![
        counted_in_header(1),
        list(0, 1),
        Item::Pad,
    ];
    request(116, Some(SET_POINTER_MAPPING_REPLY), items)
}

/// Whether the mapping was set. The status travels in the header.
pub fn set_pointer_mapping_reply() -> (definition: Struct)
    ensures
        definition.well_formed(),
        definition.metadata == StructMetadata::Reply(
            Reply { sequence: true, request: SET_POINTER_MAPPING },
        ),
        definition.items@ == seq![
            metabyte(),
            Item::Pad,
        ],
{
    let items = vec![
        metabyte(),
        Item::Pad,
    ];
    reply(SET_POINTER_MAPPING, items)
}

/// Asks for the mapping of the buttons of the pointer.
pub fn get_pointer_mapping() -> (definition: Struct)
    ensures
        definition.well_formed(),
        definition.metadata == StructMetadata::Request(
            Request {
                major_opcode: 117,
                minor_opcode: None,
                reply: Some(GET_POINTER_MAPPING_REPLY),
            },
        ),
        definition.items@ == Seq::<Item>::empty(),
{
    let items = Vec::new();
    request(117, Some(GET_POINTER_MAPPING_REPLY), items)
}

/// The mapping of the buttons of the pointer. The length of the map
/// travels in the header, and the map comes after 24 unused bytes.
pub fn get_pointer_mapping_reply() -> (definition: Struct)
    ensures
        definition.well_formed(),
        definition.metadata == StructMetadata::Reply(
            Reply { sequence: true, request: GET_POINTER_MAPPING },
        ),
        definition.items@ == seq![
            counted_in_header(2),
            Item::Unused(24),
            list(0, 1),
            Item::Pad,
        ],
{
    let items = vec![
        counted_in_header(2),
        Item::Unused(24),
        list(0, 1),
        Item::Pad,
    ];
    reply(GET_POINTER_MAPPING, items)
}

/// Adds the definitions from [`create_window`] to [`map_subwindows`] to `all`.
fn add_from_create_window(all: &mut Vec<Definition>)
    requires
        old(all)@.len() == 0,
        well_formed(old(all)@),
    ensures
        final(all)@.len() == 10,
        well_formed(final(all)@),
{
    all.push(Definition::Struct(create_window()));
    all.push(Definition::Struct(change_window_attributes()));
    all.push(Definition::Struct(get_window_attributes()));
    all.push(Definition::Struct(get_window_attributes_reply()));
    all.push(Definition::Struct(destroy_window()));
    all.push(Definition::Struct(destroy_subwindows()));
    all.push(Definition::Struct(change_save_set()));
    all.push(Definition::Struct(reparent_window()));
    all.push(Definition::Struct(map_window()));
    all.push(Definition::Struct(map_subwindows()));
}

/// Adds the definitions from [`unmap_window`] to [`intern_atom_reply`] to `all`.
fn add_from_unmap_window(all: &mut Vec<Definition>)
    requires
        old(all)@.len() == 10,
        well_formed(old(all)@),
    ensures
        final(all)@.len() == 20,
        well_formed(final(all)@),
{
    all.push(Definition::Struct(unmap_window()));
    all.push(Definition::Struct(unmap_subwindows()));
    all.push(Definition::Struct(configure_window()));
    all.push(Definition::Struct(circulate_window()));
    all.push(Definition::Struct(get_geometry()));
    all.push(Definition::Struct(get_geometry_reply()));
    all.push(Definition::Struct(query_tree()));
    all.push(Definition::Struct(query_tree_reply()));
    all.push(Definition::Struct(intern_atom()));
    all.push(Definition::Struct(intern_atom_reply()));
}

/// Adds the definitions from [`get_atom_name`] to [`ungrab_pointer`] to `all`.
fn add_from_get_atom_name(all: &mut Vec<Definition>)
    requires
        old(all)@.len() == 20,
        well_formed(old(all)@),
    ensures
        final(all)@.len() == 30,
        well_formed(final(all)@),
{
    all.push(Definition::Struct(get_atom_name()));
    all.push(Definition::Struct(get_atom_name_reply()));
    all.push(Definition::Struct(set_selection_owner()));
    all.push(Definition::Struct(get_selection_owner()));
    all.push(Definition::Struct(get_selection_owner_reply()));
    all.push(Definition::Struct(convert_selection()));
    all.push(Definition::Struct(send_event()));
    all.push(Definition::Struct(grab_pointer()));
    all.push(Definition::Struct(grab_pointer_reply()));
    all.push(Definition::Struct(ungrab_pointer()));
}

/// Adds the definitions from [`grab_button`] to [`grab_server`] to `all`.
fn add_from_grab_button(all: &mut Vec<Definition>)
    requires
        old(all)@.len() == 30,
        well_formed(old(all)@),
    ensures
        final(all)@.len() == 40,
        well_formed(final(all)@),
{
    all.push(Definition::Struct(grab_button()));
    all.push(Definition::Struct(ungrab_button()));
    all.push(Definition::Struct(change_active_pointer_grab()));
    all.push(Definition::Struct(grab_keyboard()));
    all.push(Definition::Struct(grab_keyboard_reply()));
    all.push(Definition::Struct(ungrab_keyboard()));
    all.push(Definition::Struct(grab_key()));
    all.push(Definition::Struct(ungrab_key()));
    all.push(Definition::Struct(allow_events()));
    all.push(Definition::Struct(grab_server()));
}

/// Adds the definitions from [`ungrab_server`] to [`get_input_focus_reply`] to `all`.
fn add_from_ungrab_server(all: &mut Vec<Definition>)
    requires
        old(all)@.len() == 40,
        well_formed(old(all)@),
    ensures
        final(all)@.len() == 51,
        well_formed(final(all)@),
{
    all.push(Definition::Struct(ungrab_server()));
    all.push(Definition::Struct(query_pointer()));
    all.push(Definition::Struct(query_pointer_reply()));
    all.push(Definition::Struct(get_motion_events()));
    all.push(Definition::Struct(get_motion_events_reply()));
    all.push(Definition::Struct(translate_coordinates()));
    all.push(Definition::Struct(translate_coordinates_reply()));
    all.push(Definition::Struct(warp_pointer()));
    all.push(Definition::Struct(set_input_focus()));
    all.push(Definition::Struct(get_input_focus()));
    all.push(Definition::Struct(get_input_focus_reply()));
}

/// Adds the definitions from [`query_keymap`] to [`list_fonts_reply`] to `all`.
fn add_from_query_keymap(all: &mut Vec<Definition>)
    requires
        old(all)@.len() == 51,
        well_formed(old(all)@),
    ensures
        final(all)@.len() == 61,
        well_formed(final(all)@),
{
    all.push(Definition::Struct(query_keymap()));
    all.push(Definition::Struct(query_keymap_reply()));
    all.push(Definition::Struct(open_font()));
    all.push(Definition::Struct(close_font()));
    all.push(Definition::Struct(query_font()));
    all.push(Definition::Struct(query_font_reply()));
    all.push(Definition::Struct(query_text_extents()));
    all.push(Definition::Struct(query_text_extents_reply()));
    all.push(Definition::Struct(list_fonts()));
    all.push(Definition::Struct(list_fonts_reply()));
}

/// Adds the definitions from [`set_font_path`] to [`clear_area`] to `all`.
fn add_from_set_font_path(all: &mut Vec<Definition>)
    requires
        old(all)@.len() == 61,
        well_formed(old(all)@),
    ensures
        final(all)@.len() == 71,
        well_formed(final(all)@),
{
    all.push(Definition::Struct(set_font_path()));
    all.push(Definition::Struct(create_pixmap()));
    all.push(Definition::Struct(free_pixmap()));
    all.push(Definition::Struct(create_graphics_context()));
    all.push(Definition::Struct(change_graphics_context()));
    all.push(Definition::Struct(copy_graphics_context()));
    all.push(Definition::Struct(set_dashes()));
    all.push(Definition::Struct(set_clip_rectangles()));
    all.push(Definition::Struct(free_graphics_context()));
    all.push(Definition::Struct(clear_area()));
}

/// Adds the definitions from [`copy_area`] to [`poly_fill_arc`] to `all`.
fn add_from_copy_area(all: &mut Vec<Definition>)
    requires
        old(all)@.len() == 71,
        well_formed(old(all)@),
    ensures
        final(all)@.len() == 81,
        well_formed(final(all)@),
{
    all.push(Definition::Struct(copy_area()));
    all.push(Definition::Struct(copy_plane()));
    all.push(Definition::Struct(poly_point()));
    all.push(Definition::Struct(poly_line()));
    all.push(Definition::Struct(poly_segment()));
    all.push(Definition::Struct(poly_rectangle()));
    all.push(Definition::Struct(poly_arc()));
    all.push(Definition::Struct(fill_poly()));
    all.push(Definition::Struct(poly_fill_rectangle()));
    all.push(Definition::Struct(poly_fill_arc()));
}

/// Adds the definitions from [`put_image`] to [`copy_colormap_and_free`] to `all`.
fn add_from_put_image(all: &mut Vec<Definition>)
    requires
        old(all)@.len() == 81,
        well_formed(old(all)@),
    ensures
        final(all)@.len() == 91,
        well_formed(final(all)@),
{
    all.push(Definition::Struct(put_image()));
    all.push(Definition::Struct(get_image()));
    all.push(Definition::Struct(get_image_reply()));
    all.push(Definition::Struct(poly_text8()));
    all.push(Definition::Struct(poly_text16()));
    all.push(Definition::Struct(image_text8()));
    all.push(Definition::Struct(image_text16()));
    all.push(Definition::Struct(create_colormap()));
    all.push(Definition::Struct(free_colormap()));
    all.push(Definition::Struct(copy_colormap_and_free()));
}

/// Adds the definitions from [`install_colormap`] to [`alloc_color_cells_reply`] to `all`.
fn add_from_install_colormap(all: &mut Vec<Definition>)
    requires
        old(all)@.len() == 91,
        well_formed(old(all)@),
    ensures
        final(all)@.len() == 101,
        well_formed(final(all)@),
{
    all.push(Definition::Struct(install_colormap()));
    all.push(Definition::Struct(uninstall_colormap()));
    all.push(Definition::Struct(list_installed_colormaps()));
    all.push(Definition::Struct(list_installed_colormaps_reply()));
    all.push(Definition::Struct(alloc_color()));
    all.push(Definition::Struct(alloc_color_reply()));
    all.push(Definition::Struct(alloc_named_color()));
    all.push(Definition::Struct(alloc_named_color_reply()));
    all.push(Definition::Struct(alloc_color_cells()));
    all.push(Definition::Struct(alloc_color_cells_reply()));
}

/// Adds the definitions from [`alloc_color_planes`] to [`free_cursor`] to `all`.
fn add_from_alloc_color_planes(all: &mut Vec<Definition>)
    requires
        old(all)@.len() == 101,
        well_formed(old(all)@),
    ensures
        final(all)@.len() == 111,
        well_formed(final(all)@),
{
    all.push(Definition::Struct(alloc_color_planes()));
    all.push(Definition::Struct(alloc_color_planes_reply()));
    all.push(Definition::Struct(free_colors()));
    all.push(Definition::Struct(store_colors()));
    all.push(Definition::Struct(store_named_color()));
    all.push(Definition::Struct(lookup_color()));
    all.push(Definition::Struct(lookup_color_reply()));
    all.push(Definition::Struct(create_cursor()));
    all.push(Definition::Struct(create_glyph_cursor()));
    all.push(Definition::Struct(free_cursor()));
}

/// Adds the definitions from [`recolor_cursor`] to [`bell`] to `all`.
fn add_from_recolor_cursor(all: &mut Vec<Definition>)
    requires
        old(all)@.len() == 111,
        well_formed(old(all)@),
    ensures
        final(all)@.len() == 121,
        well_formed(final(all)@),
{
    all.push(Definition::Struct(recolor_cursor()));
    all.push(Definition::Struct(query_best_size()));
    all.push(Definition::Struct(query_best_size_reply()));
    all.push(Definition::Struct(query_extension()));
    all.push(Definition::Struct(query_extension_reply()));
    all.push(Definition::Struct(list_extensions()));
    all.push(Definition::Struct(list_extensions_reply()));
    all.push(Definition::Struct(get_keyboard_control()));
    all.push(Definition::Struct(get_keyboard_control_reply()));
    all.push(Definition::Struct(bell()));
}

/// Adds the definitions from [`change_pointer_control`] to [`set_access_control`] to `all`.
fn add_from_change_pointer_control(all: &mut Vec<Definition>)
    requires
        old(all)@.len() == 121,
        well_formed(old(all)@),
    ensures
        final(all)@.len() == 131,
        well_formed(final(all)@),
{
    all.push(Definition::Struct(change_pointer_control()));
    all.push(Definition::Struct(get_pointer_control()));
    all.push(Definition::Struct(get_pointer_control_reply()));
    all.push(Definition::Struct(set_screen_saver()));
    all.push(Definition::Struct(get_screen_saver()));
    all.push(Definition::Struct(get_screen_saver_reply()));
    all.push(Definition::Struct(change_hosts()));
    all.push(Definition::Struct(list_hosts()));
    all.push(Definition::Struct(list_hosts_reply()));
    all.push(Definition::Struct(set_access_control()));
}

/// Adds the definitions from [`set_close_down_mode`] to [`get_pointer_mapping_reply`] to `all`.
fn add_from_set_close_down_mode(all: &mut Vec<Definition>)
    requires
        old(all)@.len() == 131,
        well_formed(old(all)@),
    ensures
        final(all)@.len() == 138,
        well_formed(final(all)@),
{
    all.push(Definition::Struct(set_close_down_mode()));
    all.push(Definition::Struct(rotate_properties()));
    all.push(Definition::Struct(force_screen_saver()));
    all.push(Definition::Struct(set_pointer_mapping()));
    all.push(Definition::Struct(set_pointer_mapping_reply()));
    all.push(Definition::Struct(get_pointer_mapping()));
    all.push(Definition::Struct(get_pointer_mapping_reply()));
}

/// The definitions of this module, each at the place that its constant
/// names. Each can be laid out, and every request and its reply name one
/// another.
pub fn definitions() -> (all: Definitions)
    ensures
        all.0@.len() == 138,
        all.well_formed(),
{
    let mut all: Vec<Definition> = Vec::new();
    add_from_create_window(&mut all);
    add_from_unmap_window(&mut all);
    add_from_get_atom_name(&mut all);
    add_from_grab_button(&mut all);
    add_from_ungrab_server(&mut all);
    add_from_query_keymap(&mut all);
    add_from_set_font_path(&mut all);
    add_from_copy_area(&mut all);
    add_from_put_image(&mut all);
    add_from_install_colormap(&mut all);
    add_from_alloc_color_planes(&mut all);
    add_from_recolor_cursor(&mut all);
    add_from_change_pointer_control(&mut all);
    add_from_set_close_down_mode(&mut all);
    Definitions(all)
}

} // verus!
