//! Host-side driver logic for Brother QL thermal label printers: the status
//! frame codec, the job header builder, the label catalogue, the raster
//! encoder and the print state machine.

pub mod barcode;
pub mod printer;
pub mod raster;
