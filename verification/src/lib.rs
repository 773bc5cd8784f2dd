//! Readers for the file formats of the Panda3D engine: Multifile archives, Binary Asset
//! (BAM) scene graphs and SGI images.

pub mod bytes;
pub mod common;
pub mod text;
pub mod datagram;
pub mod tables;
pub mod bam;
pub mod bam2;
pub mod subfile;
pub mod multifile;
pub mod multifile2;
pub mod sgi;
pub mod nodes;
pub mod scene;
pub mod scene_graph;
pub mod scene_walk;
