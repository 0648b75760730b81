use x11_codec::buffer::{Reader, Writer};
use x11_codec::common::set::window_configs::WindowConfigs;
use x11_codec::common::{StackMode, Window};
use x11_codec::definition::message::{Message, Struct};
use x11_codec::error::ReadError;
use x11_codec::wire::{decode, encode};
use x11_codec::x11::requests;

fn window(id: u32) -> Vec<u8> {
    encode(&Window::new(id)).expect("four bytes")
}

fn card32(value: u32) -> Vec<u8> {
    encode(&value).expect("four bytes")
}

fn card16(value: u16) -> Vec<u8> {
    encode(&value).expect("two bytes")
}

fn int16(value: i16) -> Vec<u8> {
    encode(&value).expect("two bytes")
}

fn flag(value: bool) -> Vec<u8> {
    encode(&value).expect("one byte")
}

fn none() -> Vec<u8> {
    Vec::new()
}

fn message(values: Vec<Vec<u8>>) -> Message {
    Message { sequence: 0, values }
}

fn length(definition: &Struct, message: &Message) -> Option<u32> {
    assert!(definition.is_well_formed());
    assert!(definition.accepts(message));
    definition.length(message)
}

fn bytes(definition: &Struct, message: &Message) -> Vec<u8> {
    assert!(definition.is_well_formed());
    assert!(definition.accepts(message));
    let mut w = Writer::new();
    definition.write_to(message, &mut w).expect("room for the message");
    w.into_vec()
}

#[test]
fn create_window_length_is_correct() {
    // Two attributes: a backing pixel of 0 and no cursor.
    let mut values = card32(0);
    values.extend(card32(0));
    let create_window = message(vec![
        vec![0],     // depth: copy from parent
        window(0),   // window_id
        window(0),   // parent
        int16(0),    // x
        int16(0),    // y
        card16(1),   // width
        card16(1),   // height
        card16(0),   // border_width
        card16(0),   // class: copy from parent
        card32(0),   // visual: copy from parent
        card32(0),   // value_mask
        values,
    ]);

    assert_eq!(length(&requests::create_window(), &create_window), Some(10));
}

#[test]
fn change_window_attributes_length_is_correct() {
    let change_window_attributes = message(vec![window(0), card32(0), none()]);

    assert_eq!(
        length(&requests::change_window_attributes(), &change_window_attributes),
        Some(3)
    );
}

#[test]
fn get_window_attributes_length_is_correct() {
    let get_window_attributes = message(vec![window(0)]);

    assert_eq!(length(&requests::get_window_attributes(), &get_window_attributes), Some(2));
}

#[test]
fn get_window_attributes_reply_length_is_correct() {
    let get_window_attributes_reply = message(vec![
        vec![2],      // backing_store: always
        card32(0),    // visual
        card16(2),    // class: input only
        vec![4],      // bit_gravity: west
        vec![4],      // win_gravity: west
        card32(0),    // backing_planes
        card32(0),    // backing_pixel
        flag(false),  // save_under
        flag(false),  // map_is_installed
        vec![0],      // map_state: unmapped
        flag(false),  // override_redirect
        card32(0),    // colormap: none
        card32(0),    // all_event_masks
        card32(0),    // your_event_mask
        card16(0),    // do_not_propagate_mask
        none(),
    ]);

    // The reply is 44 bytes long: three units of four bytes beyond the 32
    // that every reply has.
    let definition = requests::get_window_attributes_reply();
    assert_eq!(definition.x11_size(&get_window_attributes_reply), 44);
    assert_eq!(length(&definition, &get_window_attributes_reply), Some(3));
}

#[test]
fn destroy_window_length_is_correct() {
    let destroy_window = message(vec![window(0)]);

    assert_eq!(length(&requests::destroy_window(), &destroy_window), Some(2));
}

#[test]
fn destroy_subwindows_length_is_correct() {
    let destroy_subwindows = message(vec![window(0)]);

    assert_eq!(length(&requests::destroy_subwindows(), &destroy_subwindows), Some(2));
}

#[test]
fn change_save_set_length_is_correct() {
    let change_save_set = message(vec![
        vec![0], // mode: insert
        window(0),
    ]);

    assert_eq!(length(&requests::change_save_set(), &change_save_set), Some(2));
}

#[test]
fn reparent_window_length_is_correct() {
    let reparent_window = message(vec![window(0), window(0), int16(0), int16(0)]);

    assert_eq!(length(&requests::reparent_window(), &reparent_window), Some(4));
}

#[test]
fn convert_selection_length_is_correct() {
    let convert_selection = message(vec![
        window(0),  // requestor
        card32(0),  // selection
        card32(0),  // target
        card32(0),  // property: none
        card32(0),  // time: current
    ]);

    assert_eq!(length(&requests::convert_selection(), &convert_selection), Some(6));
}

#[test]
fn grab_pointer_length_is_correct() {
    let grab_pointer = message(vec![
        flag(false), // owner_events
        window(0),   // target_window
        card16(0),   // event_mask
        vec![1],     // pointer_mode: asynchronous
        vec![1],     // keyboard_mode: asynchronous
        card32(0),   // confine_to: none
        card32(0),   // cursor_override: none
        card32(0),   // time: current
    ]);

    assert_eq!(length(&requests::grab_pointer(), &grab_pointer), Some(6));
}

#[test]
fn grab_pointer_reply_length_is_correct() {
    let grab_pointer_reply = message(vec![
        vec![0], // status: success
        none(),
    ]);

    assert_eq!(length(&requests::grab_pointer_reply(), &grab_pointer_reply), Some(0));
}

#[test]
fn grab_server_length_is_correct() {
    let grab_server = message(vec![]);

    assert_eq!(length(&requests::grab_server(), &grab_server), Some(1));
}

#[test]
fn every_definition_is_well_formed_and_in_its_place() {
    let all = requests::definitions();
    assert!(all.is_well_formed());
    assert_eq!(all.0.len(), 138);
    assert_eq!(all.0[requests::GRAB_POINTER].request().map(|r| r.major_opcode), Some(26));
    assert_eq!(
        all.0[requests::GRAB_POINTER].request().and_then(|r| r.reply),
        Some(requests::GRAB_POINTER_REPLY)
    );
    assert_eq!(
        all.0[requests::GRAB_POINTER_REPLY].reply().map(|r| r.request),
        Some(requests::GRAB_POINTER)
    );
    assert_eq!(all.0[requests::BELL].request().map(|r| r.major_opcode), Some(104));
    assert_eq!(requests::CREATE_WINDOW, 0);
    assert_eq!(requests::GET_POINTER_MAPPING_REPLY, 137);
    for definition in &all.0 {
        assert!(definition.is_well_formed());
    }
}

#[test]
fn no_two_requests_share_an_opcode() {
    let all = requests::definitions();
    let mut seen = [false; 256];
    for definition in &all.0 {
        if let Some(request) = definition.request() {
            assert!(!seen[request.major_opcode as usize], "opcode {}", request.major_opcode);
            seen[request.major_opcode as usize] = true;
        }
    }
}

#[test]
fn fixed_requests_have_the_lengths_of_the_protocol() {
    let sized = |sizes: &[usize]| message(sizes.iter().map(|&size| vec![0; size]).collect());
    assert_eq!(length(&requests::grab_button(), &sized(&[1, 4, 2, 1, 1, 4, 4, 1, 0, 2])), Some(6));
    assert_eq!(length(&requests::ungrab_button(), &sized(&[1, 4, 2, 0])), Some(3));
    assert_eq!(length(&requests::send_event(), &sized(&[1, 4, 4, 32])), Some(11));
    assert_eq!(length(&requests::set_input_focus(), &sized(&[1, 4, 4])), Some(3));
    assert_eq!(
        length(&requests::change_active_pointer_grab(), &sized(&[4, 4, 2, 0])),
        Some(4)
    );
    assert_eq!(length(&requests::grab_keyboard(), &sized(&[1, 4, 4, 1, 1, 0])), Some(4));
    assert_eq!(length(&requests::grab_key(), &sized(&[1, 4, 2, 1, 1, 1, 0])), Some(4));
    assert_eq!(length(&requests::ungrab_key(), &sized(&[1, 4, 2, 0])), Some(3));
    assert_eq!(length(&requests::warp_pointer(), &sized(&[4, 4, 2, 2, 2, 2, 2, 2])), Some(6));
    assert_eq!(length(&requests::create_pixmap(), &sized(&[1, 4, 4, 2, 2])), Some(4));
    assert_eq!(length(&requests::clear_area(), &sized(&[1, 4, 2, 2, 2, 2])), Some(4));
    assert_eq!(length(&requests::copy_area(), &sized(&[4, 4, 4, 2, 2, 2, 2, 2, 2])), Some(7));
    assert_eq!(
        length(&requests::copy_plane(), &sized(&[4, 4, 4, 2, 2, 2, 2, 2, 2, 4])),
        Some(8)
    );
    assert_eq!(length(&requests::create_colormap(), &sized(&[1, 4, 4, 4])), Some(4));
    assert_eq!(length(&requests::alloc_color(), &sized(&[4, 6, 0])), Some(4));
    assert_eq!(length(&requests::create_cursor(), &sized(&[4, 4, 4, 6, 6, 2, 2])), Some(8));
    assert_eq!(length(&requests::create_glyph_cursor(), &sized(&[4, 4, 4, 2, 2, 6, 6])), Some(8));
    assert_eq!(length(&requests::recolor_cursor(), &sized(&[4, 6, 6])), Some(5));
    assert_eq!(length(&requests::change_pointer_control(), &sized(&[2, 2, 2, 1, 1])), Some(3));
    assert_eq!(length(&requests::set_screen_saver(), &sized(&[2, 2, 1, 1, 0])), Some(3));
    assert_eq!(length(&requests::bell(), &sized(&[1])), Some(1));
}

#[test]
fn fixed_replies_have_the_lengths_of_the_protocol() {
    let sized = |sizes: &[usize]| message(sizes.iter().map(|&size| vec![0; size]).collect());
    assert_eq!(length(&requests::get_geometry_reply(), &sized(&[1, 4, 2, 2, 2, 2, 2, 0])), Some(0));
    assert_eq!(
        length(&requests::query_pointer_reply(), &sized(&[1, 4, 4, 2, 2, 2, 2, 2, 0])),
        Some(0)
    );
    assert_eq!(length(&requests::query_keymap_reply(), &sized(&[32])), Some(2));
    assert_eq!(
        length(&requests::get_keyboard_control_reply(), &sized(&[1, 4, 1, 1, 2, 2, 0, 32])),
        Some(5)
    );
    assert_eq!(
        length(&requests::query_text_extents_reply(), &sized(&[1, 2, 2, 2, 2, 4, 4, 4, 0])),
        Some(0)
    );
    assert_eq!(length(&requests::alloc_color_reply(), &sized(&[6, 0, 4, 0])), Some(0));
    assert_eq!(length(&requests::query_extension_reply(), &sized(&[1, 1, 1, 1, 0])), Some(0));
}

#[test]
fn the_names_of_fonts_are_counted_as_strings() {
    let names = vec![5, b'f', b'i', b'x', b'e', b'd', 0, 2, b'9', b'x'];
    let reply = Message { sequence: 9, values: vec![none(), none(), names, none()] };
    let definition = requests::list_fonts_reply();
    let wire = bytes(&definition, &reply);
    assert_eq!(wire.len(), 44);
    assert_eq!(&wire[..8], &[1, 0, 0, 9, 0, 0, 0, 3]);
    // Three names, not ten bytes.
    assert_eq!(&wire[8..10], &[0, 3]);
    assert_eq!(&wire[32..42], &[5, b'f', b'i', b'x', b'e', b'd', 0, 2, b'9', b'x']);
    assert_eq!(&wire[42..], &[0, 0]);
    let mut r = Reader::new(&wire);
    assert_eq!(definition.read_from(&mut r), Ok(reply));
}

#[test]
fn names_that_end_in_the_middle_of_a_string_are_not_accepted() {
    let definition = requests::list_fonts_reply();
    let cut = Message { sequence: 0, values: vec![none(), none(), vec![3, b'a', b'b'], none()] };
    assert!(!definition.accepts(&cut));
    let whole =
        Message { sequence: 0, values: vec![none(), none(), vec![2, b'a', b'b'], none()] };
    assert!(definition.accepts(&whole));
    let empty = Message { sequence: 0, values: vec![none(), none(), none(), none()] };
    assert!(definition.accepts(&empty));
    assert_eq!(definition.x11_size(&empty), 32);
}

#[test]
fn names_that_are_promised_but_not_there_are_an_underrun() {
    // Two names are promised; the second says five characters and has two.
    let mut wire = vec![1, 0, 0, 0, 0, 0, 0, 1, 0, 2];
    wire.extend([0; 22]);
    wire.extend([1, b'a', 5, b'b']);
    assert_eq!(wire.len(), 36);
    let mut r = Reader::new(&wire);
    assert_eq!(
        requests::list_fonts_reply().read_from(&mut r),
        Err(ReadError::BufferUnderrun)
    );
}

#[test]
fn the_number_of_extensions_travels_in_the_header() {
    let names = vec![3, b'B', b'I', b'G', 5, b'S', b'H', b'A', b'P', b'E'];
    let reply = Message { sequence: 1, values: vec![none(), none(), names, none()] };
    let definition = requests::list_extensions_reply();
    let wire = bytes(&definition, &reply);
    assert_eq!(&wire[..8], &[1, 2, 0, 1, 0, 0, 0, 3]);
    assert_eq!(wire.len(), 44);
    let mut r = Reader::new(&wire);
    assert_eq!(definition.read_from(&mut r), Ok(reply));
}

#[test]
fn a_reply_with_two_lists_carries_two_counts() {
    let pixels = [card32(1), card32(2), card32(3)].concat();
    let masks = card32(0x00ff0000);
    let reply = Message { sequence: 0, values: vec![none(), none(), none(), pixels, masks] };
    let definition = requests::alloc_color_cells_reply();
    let wire = bytes(&definition, &reply);
    assert_eq!(wire.len(), 48);
    assert_eq!(&wire[8..12], &[0, 3, 0, 1]);
    assert_eq!(&wire[44..], &[0, 0xff, 0, 0]);
    let mut r = Reader::new(&wire);
    assert_eq!(definition.read_from(&mut r), Ok(reply));
}

#[test]
fn the_metrics_of_a_font_are_counted_in_units_of_twelve_bytes() {
    let properties = vec![7; 16];
    let metrics = vec![9; 36];
    let sizes = [12, 0, 12, 0, 2, 2, 2, 0, 1, 1, 1, 1, 2, 2, 0];
    let mut values: Vec<Vec<u8>> = sizes.iter().map(|&size| vec![0; size]).collect();
    values.push(properties);
    values.push(metrics);
    let reply = Message { sequence: 0, values };
    let definition = requests::query_font_reply();
    let wire = bytes(&definition, &reply);
    // 8 bytes of header, 52 of fields, 16 of properties and 36 of metrics.
    assert_eq!(wire.len(), 112);
    assert_eq!(&wire[46..48], &[0, 2]);
    assert_eq!(&wire[56..60], &[0, 0, 0, 3]);
    assert_eq!(length(&definition, &reply), Some(20));
    let mut r = Reader::new(&wire);
    assert_eq!(definition.read_from(&mut r), Ok(reply.clone()));
    let mut uneven = reply;
    uneven.values[16].pop();
    assert!(!definition.accepts(&uneven));
}

#[test]
fn the_length_of_a_string_of_wide_characters_is_counted_in_characters() {
    let request = message(vec![
        none(),
        window(1),
        card32(2),
        int16(3),
        int16(4),
        vec![0, b'a', 0, b'b', 0, b'c'],
        none(),
    ]);
    let definition = requests::image_text16();
    let wire = bytes(&definition, &request);
    assert_eq!(
        wire,
        vec![
            77, 3, 0, 6, 0, 0, 0, 1, 0, 0, 0, 2, 0, 3, 0, 4, 0, b'a', 0, b'b', 0, b'c', 0, 0
        ]
    );
    let mut r = Reader::new(&wire);
    assert_eq!(definition.read_from(&mut r), Ok(request));
}

#[test]
fn the_masks_of_planes_are_four_bytes_each() {
    let reply = Message {
        sequence: 0,
        values: vec![
            none(),
            none(),
            card32(0x00ff0000),
            card32(0x0000ff00),
            card32(0x000000ff),
            none(),
            card32(5),
        ],
    };
    let definition = requests::alloc_color_planes_reply();
    assert_eq!(length(&definition, &reply), Some(1));
    let wire = bytes(&definition, &reply);
    assert_eq!(wire.len(), 36);
    assert_eq!(&wire[8..10], &[0, 1]);
}

#[test]
fn a_count_may_stand_apart_from_its_list() {
    let atoms = [card32(10), card32(11)].concat();
    let request = message(vec![window(1), none(), int16(-1), atoms]);
    let definition = requests::rotate_properties();
    let wire = bytes(&definition, &request);
    assert_eq!(
        wire,
        vec![114, 0, 0, 5, 0, 0, 0, 1, 0, 2, 0xff, 0xff, 0, 0, 0, 10, 0, 0, 0, 11]
    );
    let mut r = Reader::new(&wire);
    assert_eq!(definition.read_from(&mut r), Ok(request));
}

#[test]
fn reparent_window_is_laid_out_field_by_field() {
    let reparent_window = message(vec![window(0x01020304), window(5), int16(-2), int16(300)]);
    assert_eq!(
        bytes(&requests::reparent_window(), &reparent_window),
        vec![7, 0, 0, 4, 1, 2, 3, 4, 0, 0, 0, 5, 0xff, 0xfe, 0x01, 0x2c]
    );
}

#[test]
fn the_metabyte_field_travels_in_the_header() {
    let change_save_set = message(vec![vec![1], window(9)]);
    assert_eq!(
        bytes(&requests::change_save_set(), &change_save_set),
        vec![6, 1, 0, 2, 0, 0, 0, 9]
    );
    let mut r = Reader::new(&[6, 1, 0, 2, 0, 0, 0, 9, 0xaa]);
    let back = requests::change_save_set().read_from(&mut r).expect("a whole request");
    assert_eq!(back, change_save_set);
    assert_eq!(r.remaining(), 1);
}

#[test]
fn a_request_without_a_metabyte_field_leaves_the_byte_zero() {
    assert_eq!(bytes(&requests::grab_server(), &message(vec![])), vec![36, 0, 0, 1]);
}

#[test]
fn intern_atom_carries_the_length_of_the_name_and_pads_to_four() {
    let name = b"WM_NAME".to_vec();
    let intern_atom = message(vec![flag(true), none(), none(), name, none()]);
    let definition = requests::intern_atom();
    assert_eq!(length(&definition, &intern_atom), Some(4));
    let wire = bytes(&definition, &intern_atom);
    assert_eq!(
        wire,
        vec![16, 1, 0, 4, 0, 7, 0, 0, b'W', b'M', b'_', b'N', b'A', b'M', b'E', 0]
    );
    let mut r = Reader::new(&wire);
    assert_eq!(definition.read_from(&mut r), Ok(intern_atom));
    assert_eq!(r.remaining(), 0);
}

#[test]
fn a_name_of_a_whole_number_of_units_needs_no_padding() {
    let intern_atom = message(vec![flag(false), none(), none(), b"ATOM".to_vec(), none()]);
    assert_eq!(
        bytes(&requests::intern_atom(), &intern_atom),
        vec![16, 0, 0, 3, 0, 4, 0, 0, b'A', b'T', b'O', b'M']
    );
}

#[test]
fn a_count_that_promises_more_than_is_there_is_an_underrun() {
    // The count says five children, the reply holds room for two.
    let mut wire = vec![1, 0, 0, 7, 0, 0, 0, 2];
    wire.extend([0, 0, 0, 1, 0, 0, 0, 2, 0, 5]);
    wire.extend([0; 14]);
    wire.extend([0, 0, 0, 3, 0, 0, 0, 4]);
    assert_eq!(wire.len(), 40);
    let mut r = Reader::new(&wire);
    assert_eq!(
        requests::query_tree_reply().read_from(&mut r),
        Err(ReadError::BufferUnderrun)
    );
}

#[test]
fn query_tree_reply_round_trips_with_its_children() {
    let mut children = window(3);
    children.extend(window(4));
    children.extend(window(5));
    let reply = Message {
        sequence: 0x0102,
        values: vec![window(1), window(2), none(), none(), children],
    };
    let definition = requests::query_tree_reply();
    assert_eq!(length(&definition, &reply), Some(3));
    let wire = bytes(&definition, &reply);
    assert_eq!(wire.len(), 44);
    assert_eq!(&wire[..8], &[1, 0, 1, 2, 0, 0, 0, 3]);
    // The count of the children stands before the fourteen unused bytes.
    assert_eq!(&wire[16..18], &[0, 3]);
    assert_eq!(&wire[32..], &[0, 0, 0, 3, 0, 0, 0, 4, 0, 0, 0, 5]);
    let mut r = Reader::new(&wire);
    assert_eq!(definition.read_from(&mut r), Ok(reply));
}

#[test]
fn a_short_reply_is_padded_to_thirty_two_bytes() {
    let reply = Message { sequence: 7, values: vec![vec![3], none()] };
    let wire = bytes(&requests::grab_pointer_reply(), &reply);
    let mut expected = vec![1, 3, 0, 7, 0, 0, 0, 0];
    expected.extend([0; 24]);
    assert_eq!(wire, expected);
    let mut r = Reader::new(&wire);
    assert_eq!(requests::grab_pointer_reply().read_from(&mut r), Ok(reply));
}

#[test]
fn the_length_of_a_map_travels_in_the_header() {
    let request = message(vec![none(), vec![1, 2, 3, 4, 5], none()]);
    let definition = requests::set_pointer_mapping();
    let wire = bytes(&definition, &request);
    assert_eq!(wire, vec![116, 5, 0, 3, 1, 2, 3, 4, 5, 0, 0, 0]);
    let mut r = Reader::new(&wire);
    assert_eq!(definition.read_from(&mut r), Ok(request));
}

#[test]
fn configure_window_carries_a_set_of_window_configs() {
    let mut builder = WindowConfigs::builder();
    builder.x(-1).stack_mode(StackMode::Above);
    let configs = builder.build();
    let request = message(vec![window(0x11), encode(&configs).expect("a short set")]);
    let definition = requests::configure_window();
    assert_eq!(length(&definition, &request), Some(5));
    let wire = bytes(&definition, &request);
    assert_eq!(
        wire,
        vec![12, 0, 0, 5, 0, 0, 0, 0x11, 0, 0x41, 0, 0, 0xff, 0xff, 0xff, 0xff, 0, 0, 0, 0]
    );
    let mut r = Reader::new(&wire);
    let back = definition.read_from(&mut r).expect("a whole request");
    let set: WindowConfigs = decode(&back.values[1]).expect("a well-formed set");
    assert_eq!(set, configs);
    assert_eq!(set.x(), Some(-1));
}

#[test]
fn a_request_of_another_opcode_is_not_recognized() {
    let mut r = Reader::new(&[5, 0, 0, 2, 0, 0, 0, 1]);
    assert_eq!(
        requests::destroy_window().read_from(&mut r),
        Err(ReadError::UnrecognizedDiscriminant(5))
    );
}

#[test]
fn a_request_cut_short_is_an_underrun() {
    for cut in 0..8 {
        let wire = [4, 0, 0, 2, 0, 0, 0, 1];
        let mut r = Reader::new(&wire[..cut]);
        assert_eq!(
            requests::destroy_window().read_from(&mut r),
            Err(ReadError::BufferUnderrun),
            "cut at {}",
            cut
        );
    }
}

#[test]
fn a_value_with_a_field_of_the_wrong_size_is_not_accepted() {
    let definition = requests::destroy_window();
    assert!(!definition.accepts(&message(vec![vec![0, 0, 0]])));
    assert!(!definition.accepts(&message(vec![])));
    assert!(!definition.accepts(&Message { sequence: 1, values: vec![window(0)] }));
    assert!(definition.accepts(&message(vec![window(0)])));
}

#[test]
fn a_request_that_is_no_whole_number_of_units_is_not_accepted() {
    let definition = requests::change_window_attributes();
    assert!(!definition.accepts(&message(vec![window(0), card32(0), vec![1, 2]])));
    assert!(definition.accepts(&message(vec![window(0), card32(0), vec![1, 2, 3, 4]])));
}
