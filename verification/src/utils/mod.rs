pub mod color;
pub mod date;
pub mod html_laws;
pub mod html_to_typst;
pub mod id;
pub mod layout;
pub mod markup_laws;
pub mod sanitize;
pub mod string;

pub use color::{hex_to_rgb, hex_to_rgb_string};
pub use date::format_date_range;
pub use html_to_typst::{clean_output, escape_typst, html_to_typst, HtmlNode};
pub use id::{create_id, is_valid_id};
pub use layout::{
    find_item_in_layout, move_item_in_layout, remove_item_in_layout, LayoutLocator,
};
pub use sanitize::sanitize_html;
pub use string::{
    extract_url, get_initials, is_empty_string, is_url, is_valid_email, process_username,
};
