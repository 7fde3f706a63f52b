//! The widgets.

pub mod caret;
pub mod comm_chat;
pub mod comm_log;
pub mod countdown_timer;
pub mod digital_clock;
pub mod marquee;
pub mod number_stepper;
pub mod multi_select_list;
pub mod dropdown;
pub mod collapsible_panel;
pub mod combo_box;
pub mod activity_rings;
pub mod area_chart;
pub mod candlestick;
pub mod compass;
pub mod donut_chart;
pub mod radial_bar;
pub mod radial_gauge;
pub mod heat_grid;
pub mod hbar_chart;
pub mod checkbox;
pub mod button;
pub mod badge;
pub mod breadcrumb;
pub mod divider;
pub mod image_view;
pub mod key_value;
pub mod big_text;
pub mod barcode;
pub mod panel;
pub mod popup;
pub mod raster;
pub mod progress_bar;
pub mod noise;
pub mod oscilloscope;
pub mod glitch_text;
pub mod battery_indicator;
pub mod graph;
pub mod line_chart;
pub mod markdown;
pub mod pie_chart;
