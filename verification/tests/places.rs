use x11_codec::definition::Definition;
use x11_codec::x11::requests;

#[test]
fn every_definition_stands_at_the_place_that_its_constant_names() {
    let all = requests::definitions();
    let at = |place: usize| all.0[place].clone();
    assert_eq!(at(requests::CREATE_WINDOW), Definition::Struct(requests::create_window()));
    assert_eq!(at(requests::CHANGE_WINDOW_ATTRIBUTES), Definition::Struct(requests::change_window_attributes()));
    assert_eq!(at(requests::GET_WINDOW_ATTRIBUTES), Definition::Struct(requests::get_window_attributes()));
    assert_eq!(at(requests::GET_WINDOW_ATTRIBUTES_REPLY), Definition::Struct(requests::get_window_attributes_reply()));
    assert_eq!(at(requests::DESTROY_WINDOW), Definition::Struct(requests::destroy_window()));
    assert_eq!(at(requests::DESTROY_SUBWINDOWS), Definition::Struct(requests::destroy_subwindows()));
    assert_eq!(at(requests::CHANGE_SAVE_SET), Definition::Struct(requests::change_save_set()));
    assert_eq!(at(requests::REPARENT_WINDOW), Definition::Struct(requests::reparent_window()));
    assert_eq!(at(requests::MAP_WINDOW), Definition::Struct(requests::map_window()));
    assert_eq!(at(requests::MAP_SUBWINDOWS), Definition::Struct(requests::map_subwindows()));
    assert_eq!(at(requests::UNMAP_WINDOW), Definition::Struct(requests::unmap_window()));
    assert_eq!(at(requests::UNMAP_SUBWINDOWS), Definition::Struct(requests::unmap_subwindows()));
    assert_eq!(at(requests::CONFIGURE_WINDOW), Definition::Struct(requests::configure_window()));
    assert_eq!(at(requests::CIRCULATE_WINDOW), Definition::Struct(requests::circulate_window()));
    assert_eq!(at(requests::GET_GEOMETRY), Definition::Struct(requests::get_geometry()));
    assert_eq!(at(requests::GET_GEOMETRY_REPLY), Definition::Struct(requests::get_geometry_reply()));
    assert_eq!(at(requests::QUERY_TREE), Definition::Struct(requests::query_tree()));
    assert_eq!(at(requests::QUERY_TREE_REPLY), Definition::Struct(requests::query_tree_reply()));
    assert_eq!(at(requests::INTERN_ATOM), Definition::Struct(requests::intern_atom()));
    assert_eq!(at(requests::INTERN_ATOM_REPLY), Definition::Struct(requests::intern_atom_reply()));
    assert_eq!(at(requests::GET_ATOM_NAME), Definition::Struct(requests::get_atom_name()));
    assert_eq!(at(requests::GET_ATOM_NAME_REPLY), Definition::Struct(requests::get_atom_name_reply()));
    assert_eq!(at(requests::SET_SELECTION_OWNER), Definition::Struct(requests::set_selection_owner()));
    assert_eq!(at(requests::GET_SELECTION_OWNER), Definition::Struct(requests::get_selection_owner()));
    assert_eq!(at(requests::GET_SELECTION_OWNER_REPLY), Definition::Struct(requests::get_selection_owner_reply()));
    assert_eq!(at(requests::CONVERT_SELECTION), Definition::Struct(requests::convert_selection()));
    assert_eq!(at(requests::SEND_EVENT), Definition::Struct(requests::send_event()));
    assert_eq!(at(requests::GRAB_POINTER), Definition::Struct(requests::grab_pointer()));
    assert_eq!(at(requests::GRAB_POINTER_REPLY), Definition::Struct(requests::grab_pointer_reply()));
    assert_eq!(at(requests::UNGRAB_POINTER), Definition::Struct(requests::ungrab_pointer()));
    assert_eq!(at(requests::GRAB_BUTTON), Definition::Struct(requests::grab_button()));
    assert_eq!(at(requests::UNGRAB_BUTTON), Definition::Struct(requests::ungrab_button()));
    assert_eq!(at(requests::CHANGE_ACTIVE_POINTER_GRAB), Definition::Struct(requests::change_active_pointer_grab()));
    assert_eq!(at(requests::GRAB_KEYBOARD), Definition::Struct(requests::grab_keyboard()));
    assert_eq!(at(requests::GRAB_KEYBOARD_REPLY), Definition::Struct(requests::grab_keyboard_reply()));
    assert_eq!(at(requests::UNGRAB_KEYBOARD), Definition::Struct(requests::ungrab_keyboard()));
    assert_eq!(at(requests::GRAB_KEY), Definition::Struct(requests::grab_key()));
    assert_eq!(at(requests::UNGRAB_KEY), Definition::Struct(requests::ungrab_key()));
    assert_eq!(at(requests::ALLOW_EVENTS), Definition::Struct(requests::allow_events()));
    assert_eq!(at(requests::GRAB_SERVER), Definition::Struct(requests::grab_server()));
    assert_eq!(at(requests::UNGRAB_SERVER), Definition::Struct(requests::ungrab_server()));
    assert_eq!(at(requests::QUERY_POINTER), Definition::Struct(requests::query_pointer()));
    assert_eq!(at(requests::QUERY_POINTER_REPLY), Definition::Struct(requests::query_pointer_reply()));
    assert_eq!(at(requests::GET_MOTION_EVENTS), Definition::Struct(requests::get_motion_events()));
    assert_eq!(at(requests::GET_MOTION_EVENTS_REPLY), Definition::Struct(requests::get_motion_events_reply()));
    assert_eq!(at(requests::TRANSLATE_COORDINATES), Definition::Struct(requests::translate_coordinates()));
    assert_eq!(at(requests::TRANSLATE_COORDINATES_REPLY), Definition::Struct(requests::translate_coordinates_reply()));
    assert_eq!(at(requests::WARP_POINTER), Definition::Struct(requests::warp_pointer()));
    assert_eq!(at(requests::SET_INPUT_FOCUS), Definition::Struct(requests::set_input_focus()));
    assert_eq!(at(requests::GET_INPUT_FOCUS), Definition::Struct(requests::get_input_focus()));
    assert_eq!(at(requests::GET_INPUT_FOCUS_REPLY), Definition::Struct(requests::get_input_focus_reply()));
    assert_eq!(at(requests::QUERY_KEYMAP), Definition::Struct(requests::query_keymap()));
    assert_eq!(at(requests::QUERY_KEYMAP_REPLY), Definition::Struct(requests::query_keymap_reply()));
    assert_eq!(at(requests::OPEN_FONT), Definition::Struct(requests::open_font()));
    assert_eq!(at(requests::CLOSE_FONT), Definition::Struct(requests::close_font()));
    assert_eq!(at(requests::QUERY_FONT), Definition::Struct(requests::query_font()));
    assert_eq!(at(requests::QUERY_FONT_REPLY), Definition::Struct(requests::query_font_reply()));
    assert_eq!(at(requests::QUERY_TEXT_EXTENTS), Definition::Struct(requests::query_text_extents()));
    assert_eq!(at(requests::QUERY_TEXT_EXTENTS_REPLY), Definition::Struct(requests::query_text_extents_reply()));
    assert_eq!(at(requests::LIST_FONTS), Definition::Struct(requests::list_fonts()));
    assert_eq!(at(requests::LIST_FONTS_REPLY), Definition::Struct(requests::list_fonts_reply()));
    assert_eq!(at(requests::SET_FONT_PATH), Definition::Struct(requests::set_font_path()));
    assert_eq!(at(requests::CREATE_PIXMAP), Definition::Struct(requests::create_pixmap()));
    assert_eq!(at(requests::FREE_PIXMAP), Definition::Struct(requests::free_pixmap()));
    assert_eq!(at(requests::CREATE_GRAPHICS_CONTEXT), Definition::Struct(requests::create_graphics_context()));
    assert_eq!(at(requests::CHANGE_GRAPHICS_CONTEXT), Definition::Struct(requests::change_graphics_context()));
    assert_eq!(at(requests::COPY_GRAPHICS_CONTEXT), Definition::Struct(requests::copy_graphics_context()));
    assert_eq!(at(requests::SET_DASHES), Definition::Struct(requests::set_dashes()));
    assert_eq!(at(requests::SET_CLIP_RECTANGLES), Definition::Struct(requests::set_clip_rectangles()));
    assert_eq!(at(requests::FREE_GRAPHICS_CONTEXT), Definition::Struct(requests::free_graphics_context()));
    assert_eq!(at(requests::CLEAR_AREA), Definition::Struct(requests::clear_area()));
    assert_eq!(at(requests::COPY_AREA), Definition::Struct(requests::copy_area()));
    assert_eq!(at(requests::COPY_PLANE), Definition::Struct(requests::copy_plane()));
    assert_eq!(at(requests::POLY_POINT), Definition::Struct(requests::poly_point()));
    assert_eq!(at(requests::POLY_LINE), Definition::Struct(requests::poly_line()));
    assert_eq!(at(requests::POLY_SEGMENT), Definition::Struct(requests::poly_segment()));
    assert_eq!(at(requests::POLY_RECTANGLE), Definition::Struct(requests::poly_rectangle()));
    assert_eq!(at(requests::POLY_ARC), Definition::Struct(requests::poly_arc()));
    assert_eq!(at(requests::FILL_POLY), Definition::Struct(requests::fill_poly()));
    assert_eq!(at(requests::POLY_FILL_RECTANGLE), Definition::Struct(requests::poly_fill_rectangle()));
    assert_eq!(at(requests::POLY_FILL_ARC), Definition::Struct(requests::poly_fill_arc()));
    assert_eq!(at(requests::PUT_IMAGE), Definition::Struct(requests::put_image()));
    assert_eq!(at(requests::GET_IMAGE), Definition::Struct(requests::get_image()));
    assert_eq!(at(requests::GET_IMAGE_REPLY), Definition::Struct(requests::get_image_reply()));
    assert_eq!(at(requests::POLY_TEXT8), Definition::Struct(requests::poly_text8()));
    assert_eq!(at(requests::POLY_TEXT16), Definition::Struct(requests::poly_text16()));
    assert_eq!(at(requests::IMAGE_TEXT8), Definition::Struct(requests::image_text8()));
    assert_eq!(at(requests::IMAGE_TEXT16), Definition::Struct(requests::image_text16()));
    assert_eq!(at(requests::CREATE_COLORMAP), Definition::Struct(requests::create_colormap()));
    assert_eq!(at(requests::FREE_COLORMAP), Definition::Struct(requests::free_colormap()));
    assert_eq!(at(requests::COPY_COLORMAP_AND_FREE), Definition::Struct(requests::copy_colormap_and_free()));
    assert_eq!(at(requests::INSTALL_COLORMAP), Definition::Struct(requests::install_colormap()));
    assert_eq!(at(requests::UNINSTALL_COLORMAP), Definition::Struct(requests::uninstall_colormap()));
    assert_eq!(at(requests::LIST_INSTALLED_COLORMAPS), Definition::Struct(requests::list_installed_colormaps()));
    assert_eq!(at(requests::LIST_INSTALLED_COLORMAPS_REPLY), Definition::Struct(requests::list_installed_colormaps_reply()));
    assert_eq!(at(requests::ALLOC_COLOR), Definition::Struct(requests::alloc_color()));
    assert_eq!(at(requests::ALLOC_COLOR_REPLY), Definition::Struct(requests::alloc_color_reply()));
    assert_eq!(at(requests::ALLOC_NAMED_COLOR), Definition::Struct(requests::alloc_named_color()));
    assert_eq!(at(requests::ALLOC_NAMED_COLOR_REPLY), Definition::Struct(requests::alloc_named_color_reply()));
    assert_eq!(at(requests::ALLOC_COLOR_CELLS), Definition::Struct(requests::alloc_color_cells()));
    assert_eq!(at(requests::ALLOC_COLOR_CELLS_REPLY), Definition::Struct(requests::alloc_color_cells_reply()));
    assert_eq!(at(requests::ALLOC_COLOR_PLANES), Definition::Struct(requests::alloc_color_planes()));
    assert_eq!(at(requests::ALLOC_COLOR_PLANES_REPLY), Definition::Struct(requests::alloc_color_planes_reply()));
    assert_eq!(at(requests::FREE_COLORS), Definition::Struct(requests::free_colors()));
    assert_eq!(at(requests::STORE_COLORS), Definition::Struct(requests::store_colors()));
    assert_eq!(at(requests::STORE_NAMED_COLOR), Definition::Struct(requests::store_named_color()));
    assert_eq!(at(requests::LOOKUP_COLOR), Definition::Struct(requests::lookup_color()));
    assert_eq!(at(requests::LOOKUP_COLOR_REPLY), Definition::Struct(requests::lookup_color_reply()));
    assert_eq!(at(requests::CREATE_CURSOR), Definition::Struct(requests::create_cursor()));
    assert_eq!(at(requests::CREATE_GLYPH_CURSOR), Definition::Struct(requests::create_glyph_cursor()));
    assert_eq!(at(requests::FREE_CURSOR), Definition::Struct(requests::free_cursor()));
    assert_eq!(at(requests::RECOLOR_CURSOR), Definition::Struct(requests::recolor_cursor()));
    assert_eq!(at(requests::QUERY_BEST_SIZE), Definition::Struct(requests::query_best_size()));
    assert_eq!(at(requests::QUERY_BEST_SIZE_REPLY), Definition::Struct(requests::query_best_size_reply()));
    assert_eq!(at(requests::QUERY_EXTENSION), Definition::Struct(requests::query_extension()));
    assert_eq!(at(requests::QUERY_EXTENSION_REPLY), Definition::Struct(requests::query_extension_reply()));
    assert_eq!(at(requests::LIST_EXTENSIONS), Definition::Struct(requests::list_extensions()));
    assert_eq!(at(requests::LIST_EXTENSIONS_REPLY), Definition::Struct(requests::list_extensions_reply()));
    assert_eq!(at(requests::GET_KEYBOARD_CONTROL), Definition::Struct(requests::get_keyboard_control()));
    assert_eq!(at(requests::GET_KEYBOARD_CONTROL_REPLY), Definition::Struct(requests::get_keyboard_control_reply()));
    assert_eq!(at(requests::BELL), Definition::Struct(requests::bell()));
    assert_eq!(at(requests::CHANGE_POINTER_CONTROL), Definition::Struct(requests::change_pointer_control()));
    assert_eq!(at(requests::GET_POINTER_CONTROL), Definition::Struct(requests::get_pointer_control()));
    assert_eq!(at(requests::GET_POINTER_CONTROL_REPLY), Definition::Struct(requests::get_pointer_control_reply()));
    assert_eq!(at(requests::SET_SCREEN_SAVER), Definition::Struct(requests::set_screen_saver()));
    assert_eq!(at(requests::GET_SCREEN_SAVER), Definition::Struct(requests::get_screen_saver()));
    assert_eq!(at(requests::GET_SCREEN_SAVER_REPLY), Definition::Struct(requests::get_screen_saver_reply()));
    assert_eq!(at(requests::CHANGE_HOSTS), Definition::Struct(requests::change_hosts()));
    assert_eq!(at(requests::LIST_HOSTS), Definition::Struct(requests::list_hosts()));
    assert_eq!(at(requests::LIST_HOSTS_REPLY), Definition::Struct(requests::list_hosts_reply()));
    assert_eq!(at(requests::SET_ACCESS_CONTROL), Definition::Struct(requests::set_access_control()));
    assert_eq!(at(requests::SET_CLOSE_DOWN_MODE), Definition::Struct(requests::set_close_down_mode()));
    assert_eq!(at(requests::ROTATE_PROPERTIES), Definition::Struct(requests::rotate_properties()));
    assert_eq!(at(requests::FORCE_SCREEN_SAVER), Definition::Struct(requests::force_screen_saver()));
    assert_eq!(at(requests::SET_POINTER_MAPPING), Definition::Struct(requests::set_pointer_mapping()));
    assert_eq!(at(requests::SET_POINTER_MAPPING_REPLY), Definition::Struct(requests::set_pointer_mapping_reply()));
    assert_eq!(at(requests::GET_POINTER_MAPPING), Definition::Struct(requests::get_pointer_mapping()));
    assert_eq!(at(requests::GET_POINTER_MAPPING_REPLY), Definition::Struct(requests::get_pointer_mapping_reply()));
}

#[test]
fn the_places_count_up_from_zero() {
    let places = [
        requests::CREATE_WINDOW,
        requests::CHANGE_WINDOW_ATTRIBUTES,
        requests::GET_WINDOW_ATTRIBUTES,
        requests::GET_WINDOW_ATTRIBUTES_REPLY,
        requests::DESTROY_WINDOW,
        requests::DESTROY_SUBWINDOWS,
        requests::CHANGE_SAVE_SET,
        requests::REPARENT_WINDOW,
        requests::MAP_WINDOW,
        requests::MAP_SUBWINDOWS,
        requests::UNMAP_WINDOW,
        requests::UNMAP_SUBWINDOWS,
        requests::CONFIGURE_WINDOW,
        requests::CIRCULATE_WINDOW,
        requests::GET_GEOMETRY,
        requests::GET_GEOMETRY_REPLY,
        requests::QUERY_TREE,
        requests::QUERY_TREE_REPLY,
        requests::INTERN_ATOM,
        requests::INTERN_ATOM_REPLY,
        requests::GET_ATOM_NAME,
        requests::GET_ATOM_NAME_REPLY,
        requests::SET_SELECTION_OWNER,
        requests::GET_SELECTION_OWNER,
        requests::GET_SELECTION_OWNER_REPLY,
        requests::CONVERT_SELECTION,
        requests::SEND_EVENT,
        requests::GRAB_POINTER,
        requests::GRAB_POINTER_REPLY,
        requests::UNGRAB_POINTER,
        requests::GRAB_BUTTON,
        requests::UNGRAB_BUTTON,
        requests::CHANGE_ACTIVE_POINTER_GRAB,
        requests::GRAB_KEYBOARD,
        requests::GRAB_KEYBOARD_REPLY,
        requests::UNGRAB_KEYBOARD,
        requests::GRAB_KEY,
        requests::UNGRAB_KEY,
        requests::ALLOW_EVENTS,
        requests::GRAB_SERVER,
        requests::UNGRAB_SERVER,
        requests::QUERY_POINTER,
        requests::QUERY_POINTER_REPLY,
        requests::GET_MOTION_EVENTS,
        requests::GET_MOTION_EVENTS_REPLY,
        requests::TRANSLATE_COORDINATES,
        requests::TRANSLATE_COORDINATES_REPLY,
        requests::WARP_POINTER,
        requests::SET_INPUT_FOCUS,
        requests::GET_INPUT_FOCUS,
        requests::GET_INPUT_FOCUS_REPLY,
        requests::QUERY_KEYMAP,
        requests::QUERY_KEYMAP_REPLY,
        requests::OPEN_FONT,
        requests::CLOSE_FONT,
        requests::QUERY_FONT,
        requests::QUERY_FONT_REPLY,
        requests::QUERY_TEXT_EXTENTS,
        requests::QUERY_TEXT_EXTENTS_REPLY,
        requests::LIST_FONTS,
        requests::LIST_FONTS_REPLY,
        requests::SET_FONT_PATH,
        requests::CREATE_PIXMAP,
        requests::FREE_PIXMAP,
        requests::CREATE_GRAPHICS_CONTEXT,
        requests::CHANGE_GRAPHICS_CONTEXT,
        requests::COPY_GRAPHICS_CONTEXT,
        requests::SET_DASHES,
        requests::SET_CLIP_RECTANGLES,
        requests::FREE_GRAPHICS_CONTEXT,
        requests::CLEAR_AREA,
        requests::COPY_AREA,
        requests::COPY_PLANE,
        requests::POLY_POINT,
        requests::POLY_LINE,
        requests::POLY_SEGMENT,
        requests::POLY_RECTANGLE,
        requests::POLY_ARC,
        requests::FILL_POLY,
        requests::POLY_FILL_RECTANGLE,
        requests::POLY_FILL_ARC,
        requests::PUT_IMAGE,
        requests::GET_IMAGE,
        requests::GET_IMAGE_REPLY,
        requests::POLY_TEXT8,
        requests::POLY_TEXT16,
        requests::IMAGE_TEXT8,
        requests::IMAGE_TEXT16,
        requests::CREATE_COLORMAP,
        requests::FREE_COLORMAP,
        requests::COPY_COLORMAP_AND_FREE,
        requests::INSTALL_COLORMAP,
        requests::UNINSTALL_COLORMAP,
        requests::LIST_INSTALLED_COLORMAPS,
        requests::LIST_INSTALLED_COLORMAPS_REPLY,
        requests::ALLOC_COLOR,
        requests::ALLOC_COLOR_REPLY,
        requests::ALLOC_NAMED_COLOR,
        requests::ALLOC_NAMED_COLOR_REPLY,
        requests::ALLOC_COLOR_CELLS,
        requests::ALLOC_COLOR_CELLS_REPLY,
        requests::ALLOC_COLOR_PLANES,
        requests::ALLOC_COLOR_PLANES_REPLY,
        requests::FREE_COLORS,
        requests::STORE_COLORS,
        requests::STORE_NAMED_COLOR,
        requests::LOOKUP_COLOR,
        requests::LOOKUP_COLOR_REPLY,
        requests::CREATE_CURSOR,
        requests::CREATE_GLYPH_CURSOR,
        requests::FREE_CURSOR,
        requests::RECOLOR_CURSOR,
        requests::QUERY_BEST_SIZE,
        requests::QUERY_BEST_SIZE_REPLY,
        requests::QUERY_EXTENSION,
        requests::QUERY_EXTENSION_REPLY,
        requests::LIST_EXTENSIONS,
        requests::LIST_EXTENSIONS_REPLY,
        requests::GET_KEYBOARD_CONTROL,
        requests::GET_KEYBOARD_CONTROL_REPLY,
        requests::BELL,
        requests::CHANGE_POINTER_CONTROL,
        requests::GET_POINTER_CONTROL,
        requests::GET_POINTER_CONTROL_REPLY,
        requests::SET_SCREEN_SAVER,
        requests::GET_SCREEN_SAVER,
        requests::GET_SCREEN_SAVER_REPLY,
        requests::CHANGE_HOSTS,
        requests::LIST_HOSTS,
        requests::LIST_HOSTS_REPLY,
        requests::SET_ACCESS_CONTROL,
        requests::SET_CLOSE_DOWN_MODE,
        requests::ROTATE_PROPERTIES,
        requests::FORCE_SCREEN_SAVER,
        requests::SET_POINTER_MAPPING,
        requests::SET_POINTER_MAPPING_REPLY,
        requests::GET_POINTER_MAPPING,
        requests::GET_POINTER_MAPPING_REPLY,
    ];
    for (place, &constant) in places.iter().enumerate() {
        assert_eq!(constant, place);
    }
    assert_eq!(places.len(), requests::definitions().0.len());
}
