//! Process binaries stored in flash, before they are loaded.
//!
//! A binary starts with a header; the header parser reports what the
//! checks here read of it, and the checks decide whether the binary can be
//! loaded by this kernel.

use crate::{KERNEL_MAJOR_VERSION, KERNEL_MINOR_VERSION};
use vstd::prelude::*;

verus! {

/// Why a binary in flash cannot be loaded.
#[derive(Clone, Copy, Debug)]
pub enum ProcessBinaryError {
    /// No header was found.
    TbfHeaderNotFound,
    /// The header did not parse.
    TbfHeaderParseFailure,
    /// The binary does not fit in the flash it was given.
    NotEnoughFlash,
    /// The binary needs another kernel version, or gives none.
    IncompatibleKernelVersion { version: Option<(u16, u16)> },
    /// The binary is not at the flash address its header fixes.
    IncorrectFlashAddress { actual_address: u32, expected_address: u32 },
    /// The binary is marked as not enabled.
    NotEnabledProcess,
    /// The binary is only padding.
    Padding,
}

/// What the checks read of a parsed header.
#[derive(Clone, Copy, Debug)]
pub struct TbfHeaderInfo {
    /// Whether the binary is an application, not padding.
    pub is_app: bool,
    /// Whether the application is enabled.
    pub enabled: bool,
    /// The kernel version the application needs, if it gives one.
    pub kernel_version: Option<(u16, u16)>,
    /// The offset of the end of the part covered by integrity: the footers
    /// follow it.
    pub binary_end: u32,
    /// The size of the protected part at the start of the binary.
    pub protected_size: u32,
    /// The flash address the application must start at, if fixed.
    pub fixed_address_flash: Option<u32>,
    /// The version of the binary; of two binaries of one application the
    /// higher version is the newer.
    pub binary_version: u32,
}

/// What the header parser reads from the first eight bytes of a binary.
#[derive(Clone, Copy, Debug)]
pub enum TbfHeaderLengths {
    /// A header of `header_length` bytes, in format `version`, for a binary
    /// of `app_length` bytes.
    Valid { version: u16, header_length: u16, app_length: u32 },
    /// A binary of `app_length` bytes whose header is not valid: it is to be
    /// skipped.
    InvalidHeader { app_length: u32 },
    /// Nothing that reads as a header: the end of the binaries in flash.
    UnableToParse,
}

/// A binary in flash that can be loaded: its flash, where its footers are,
/// and its header.
#[derive(Clone, Copy, Debug)]
pub struct ProcessBinary {
    /// The start of the flash of the binary.
    pub flash_start: usize,
    /// The length of the flash of the binary.
    pub flash_len: usize,
    /// The offset of the footers in that flash.
    pub footers_offset: usize,
    /// The length of the footers.
    pub footers_len: usize,
    /// The header.
    pub header: TbfHeaderInfo,
}

/// Whether a binary that needs kernel `major.minor` can run on this kernel:
/// the same major version and no later minor version.
pub open spec fn compatible_kernel(major: u16, minor: u16) -> bool {
    major == KERNEL_MAJOR_VERSION && minor <= KERNEL_MINOR_VERSION
}

/// The outcome of the checks of a binary, given its flash, the length of its
/// header, the parsed header (or `None` if it did not parse), and whether a
/// kernel version is required.
pub open spec fn binary_outcome(
    flash_start: usize,
    flash_len: usize,
    header_length: usize,
    header: Option<TbfHeaderInfo>,
    require_kernel_version: bool,
) -> Result<ProcessBinary, ProcessBinaryError> {
    if header_length > flash_len {
        Err(ProcessBinaryError::NotEnoughFlash)
    } else {
        match header {
            None => Err(ProcessBinaryError::TbfHeaderParseFailure),
            Some(h) => if !h.is_app {
                Err(ProcessBinaryError::Padding)
            } else if !h.enabled {
                Err(ProcessBinaryError::NotEnabledProcess)
            } else if h.kernel_version matches Some((major, minor)) && !compatible_kernel(
                major,
                minor,
            ) {
                Err(ProcessBinaryError::IncompatibleKernelVersion { version: h.kernel_version })
            } else if h.kernel_version is None && require_kernel_version {
                Err(ProcessBinaryError::IncompatibleKernelVersion { version: None })
            } else if h.binary_end > flash_len {
                Err(ProcessBinaryError::NotEnoughFlash)
            } else if h.fixed_address_flash matches Some(expected) && (flash_start as u32)
                + h.protected_size != expected {
                Err(
                    ProcessBinaryError::IncorrectFlashAddress {
                        actual_address: ((flash_start as u32) + h.protected_size) as u32,
                        expected_address: h.fixed_address_flash->0,
                    },
                )
            } else {
                Ok(
                    ProcessBinary {
                        flash_start,
                        flash_len,
                        footers_offset: h.binary_end as usize,
                        footers_len: (flash_len - h.binary_end) as usize,
                        header: h,
                    },
                )
            },
        }
    }
}

impl ProcessBinary {
    /// Checks a binary of `flash_len` bytes at `flash_start` whose header is
    /// `header_length` bytes long and parsed as `header`: it must fit in the
    /// flash, be an enabled application for this kernel version, and sit at
    /// the flash address its header may fix.
    pub fn create(
        flash_start: usize,
        flash_len: usize,
        header_length: usize,
        header: Option<TbfHeaderInfo>,
        require_kernel_version: bool,
    ) -> (r: Result<ProcessBinary, ProcessBinaryError>)
        requires
            header is Some && header->0.fixed_address_flash is Some ==> (flash_start as u32)
                + header->0.protected_size <= u32::MAX,
        ensures
            r == binary_outcome(flash_start, flash_len, header_length, header, require_kernel_version),
    {
        if header_length > flash_len {
            return Err(ProcessBinaryError::NotEnoughFlash);
        }
        let tbf_header: TbfHeaderInfo = match header {
            Some(h) => h,
            None => {
                return Err(ProcessBinaryError::TbfHeaderParseFailure);
            },
        };
        if !tbf_header.is_app {
            return Err(ProcessBinaryError::Padding);
        }
        if !tbf_header.enabled {
            return Err(ProcessBinaryError::NotEnabledProcess);
        }
        match tbf_header.kernel_version {
            Some((major, minor)) => {
                if KERNEL_MAJOR_VERSION != major || KERNEL_MINOR_VERSION < minor {
                    return Err(
                        ProcessBinaryError::IncompatibleKernelVersion {
                            version: Some((major, minor)),
                        },
                    );
                }
            },
            None => {
                if require_kernel_version {
                    return Err(ProcessBinaryError::IncompatibleKernelVersion { version: None });
                }
            },
        }
        let binary_end: usize = tbf_header.binary_end as usize;
        let total_size: usize = flash_len;
        if binary_end > total_size {
            return Err(ProcessBinaryError::NotEnoughFlash);
        }
        match tbf_header.fixed_address_flash {
            Some(fixed_flash_start) => {
                let actual_address: u32 = (flash_start as u32) + tbf_header.protected_size;
                let expected_address: u32 = fixed_flash_start;
                if actual_address != expected_address {
                    return Err(
                        ProcessBinaryError::IncorrectFlashAddress { actual_address, expected_address },
                    );
                }
            },
            None => {},
        }
        Ok(
            ProcessBinary {
                flash_start,
                flash_len,
                footers_offset: binary_end,
                footers_len: total_size - binary_end,
                header: tbf_header,
            },
        )
    }

    /// The part of the flash covered by integrity: its start and length.
    pub fn get_integrity_region(&self) -> (r: (usize, usize))
        ensures
            r == (self.flash_start, self.header.binary_end as usize),
    {
        (self.flash_start, self.header.binary_end as usize)
    }
}

} // verus!
