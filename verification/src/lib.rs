//! Drag-to-resize and scrollbar geometry for tree-structured layouts.
//!
//! The crate decides, for one pointer sample, which regions of a layout change
//! their size and by how much, and where a scroll thumb stands. It reads no
//! element and writes no style itself: every function takes the measured
//! geometry as plain values and hands back what is to be written.
//!
//! All sizes are whole numbers. Absolute sizes and coordinates count
//! hundredths of a pixel, proportional sizes count hundredths of a percent.
//! Whatever has to be rounded is rounded to the nearest hundredth.

pub mod arith;
pub mod changeclass;
pub mod decimal;
pub mod drag;
pub mod geometry;
pub mod lengthmap;
pub mod resizer;
pub mod scrollbar;
pub mod stylelength;
pub mod utils;

pub use changeclass::{ChangeClass, ClassChange};
pub use drag::{DragEffect, DragEvent, DragSession, Listeners, PRIMARY_BUTTON};
pub use geometry::{Layout, Pointer, Rect, Region};
pub use lengthmap::LengthMap;
pub use resizer::panel::{handle_panel_mousemove, PanelResize};
pub use resizer::parcels::{
    get_sibling, get_siblings, handle_parcels_mousemove, set_parcel_style_and_update_map,
    ParcelResize, ParcelsResize,
};
pub use resizer::{
    get_length, get_lengths, resizer_parent_element, scroll_length, PanelSession, ParcelsSession,
    Resizer,
};
pub use scrollbar::{
    sync_scroll_absolute_position, BarStyle, BarUpdate, ScrollBar, ScrollBarSession, ScrollBy,
    ScrollMetrics,
};
pub use stylelength::{StyleLength, StyleWrite};
pub use utils::{new_id, panel_arrow, replace_class};
