//! Core of a terminal music player: the playback state machine, the play
//! queue, the folder-tree browser, and the generic selection cursor that the
//! media and queue views share.
//!
//! Everything here is pure state and decisions. The audio backend, the
//! terminal, the filesystem scan and the remote catalog are collaborators
//! that the surrounding binary drives; they feed plain values in and carry
//! the returned commands out.

pub mod config;
pub mod events;
pub mod fetch;
pub mod filefinder;
pub mod folder_handler;
pub mod keyboard;
pub mod musicplayer;
pub mod orchestrator;
pub mod paths;
pub mod searchhandler;
pub mod selecthandler;
pub mod song;
pub mod songs;
pub mod text;
