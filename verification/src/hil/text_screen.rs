//! Interface for text screens.

use crate::errorcode::ErrorCode;
use vstd::prelude::*;

verus! {

/// A screen that shows text.
pub trait TextScreen<'a> {
    /// Sets or removes the client.
    fn set_client(&self, client: Option<&'a dyn TextScreenClient>);

    /// The number of columns and rows.
    fn get_size(&self) -> (usize, usize);

    /// Prints `len` bytes of the buffer; on failure the buffer is given
    /// back.
    fn print(&self, buffer: &'static mut [u8], len: usize) -> Result<(), (ErrorCode, &'static mut [u8])>;

    /// Moves the cursor.
    fn set_cursor(&self, x_position: usize, y_position: usize) -> Result<(), ErrorCode>;

    /// Hides the cursor.
    fn hide_cursor(&self) -> Result<(), ErrorCode>;

    /// Shows the cursor.
    fn show_cursor(&self) -> Result<(), ErrorCode>;

    /// Makes the cursor blink.
    fn blink_cursor_on(&self) -> Result<(), ErrorCode>;

    /// Stops the cursor from blinking.
    fn blink_cursor_off(&self) -> Result<(), ErrorCode>;

    /// Turns the display on.
    fn display_on(&self) -> Result<(), ErrorCode>;

    /// Turns the display off.
    fn display_off(&self) -> Result<(), ErrorCode>;

    /// Clears the display.
    fn clear(&self) -> Result<(), ErrorCode>;
}

/// Handles the completion of screen operations.
pub trait TextScreenClient {
    /// A command completed.
    fn command_complete(&self, r: Result<(), ErrorCode>);

    /// A print completed.
    fn write_complete(&self, buffer: &'static mut [u8], len: usize, r: Result<(), ErrorCode>);
}

} // verus!
