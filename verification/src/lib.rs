//! A peer-to-peer chat node over libp2p floodsub and gossipsub: the decisions
//! that the browser and terminal front ends take on each user input and
//! network event, with their contracts.
pub mod address;
pub mod node;
pub mod laws;
