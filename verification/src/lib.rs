//! Verified core of the awgram VPN management bot.

pub mod calendar;
pub mod text;
pub mod numbers;
pub mod store;
pub mod auth;
pub mod model;
pub mod action;
pub mod access;
pub mod scope;
pub mod state;
pub mod node;
pub mod handlers;
pub mod add_flow;
pub mod bulk_flow;
pub mod node_run;
pub mod keyboard;
pub mod admin_menus;
pub mod customer_menus;
pub mod bot_menus;
pub mod list_menus;
pub mod client_list;
pub mod entry_menus;
pub mod reply_keyboards;
pub mod issue_flow;
pub mod screens;
pub mod inputs;
pub mod callback_laws;
pub mod links;
pub mod admission;
pub mod overview;
pub mod payments;
pub mod release;
pub mod owner_inputs;
pub mod broadcast;
pub mod routes;
pub mod managed;
pub mod conversation;
pub mod dialog_flow;
