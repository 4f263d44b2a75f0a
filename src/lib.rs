//! User-space access to SPI devices through the spidev character device:
//! transfer descriptors that own their buffers, the records handed to the
//! kernel, batching of several transfers, and the mode-write dispatch rule.

mod errors;
mod mode;
mod transfer;

pub use errors::{from_nix_error, from_nix_result, SpiError};
pub use mode::{mode_write, ModeWrite, SpiModeFlags};
pub use transfer::{
    batch_size_bytes, buf_view, flag_byte, flag_value, lemma_render_twice, prepare_batch,
    render_batch, spi_ioc_transfer, zeros, SpidevTransfer, RECORD_SIZE,
};
