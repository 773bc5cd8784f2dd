//! The scene graph objects of a Binary Asset and how each is read from its datagram.

pub mod enums;
pub mod attribs;
pub mod storage;
pub mod panda_node;
pub mod geom;
pub mod anim;
pub mod collision;
pub mod dispatch;
pub mod graph;
