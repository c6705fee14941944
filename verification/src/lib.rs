//! Presentation and request logic of the household task frontend, verified with Verus.
//!
//! Every module here is plain data and pure functions: the browser glue (signals, DOM,
//! HTTP, timers) lives outside the library and hands these functions plain values.
mod text;

pub mod api;
pub mod archetype;
pub mod bulk_edit;
pub mod calendar;
pub mod catalog;
pub mod css_contract;
pub mod dates;
pub mod endpoints;
pub mod forms;
pub mod ids;
pub mod keyed;
pub mod links;
pub mod markdown;
pub mod pending;
pub mod period;
pub mod quick_task;
pub mod settings;
pub mod sorted;
pub mod task_card_model;
pub mod task_card_text;
pub mod task_detail;
pub mod task_edit_modal;
pub mod task_fields;
pub mod task_form_model;
pub mod task_list;
pub mod task_modal;
pub mod ui_classes;
pub mod widgets;
pub mod ws;
