//! Winbond W25Q128JV serial NOR flash.
pub mod flash;
pub mod reg;
