//! Bringing up CUDA for the zero-copy encoder.

use vstd::prelude::*;
use vstd::string::*;

use crate::text::dec;
#[allow(unused_imports)]
use crate::text::decimal;

verus! {

/// The driver library, with every function that is needed.
#[derive(Debug, Clone, Copy, PartialEq, Eq, Structural)]
pub struct CudaLib {
    /// How many functions were resolved.
    pub symbols: usize,
}

/// How many functions of the driver library are needed.
pub const CUDA_SYMBOLS: usize = 20;

impl CudaLib {
    /// The library, where it could be opened, every function was found, and
    /// initialising it returned zero. `found` is how many functions were found
    /// before the first that was not.
    pub fn load(opened: bool, found: usize, init: i32) -> (r: Option<CudaLib>)
        ensures
            r == if opened && found == CUDA_SYMBOLS && init == 0 {
                Some(CudaLib { symbols: CUDA_SYMBOLS })
            } else {
                None
            },
    {
        if !opened || found != CUDA_SYMBOLS || init != 0 {
            return None;
        }
        Some(CudaLib { symbols: CUDA_SYMBOLS })
    }

    /// The text of [`CudaLib::err`].
    pub open spec fn err_text(code: i32, message: Option<Seq<char>>) -> Seq<char> {
        if code == 0 {
            "0 (CUDA_SUCCESS)"@
        } else {
            match message {
                Some(m) => decimal(code as int) + " ("@ + m + ")"@,
                None => decimal(code as int) + " (unknown)"@,
            }
        }
    }

    /// Describes a result code. `message` is what the driver says of it.
    pub fn err(&self, code: i32, message: Option<&str>) -> (r: String)
        ensures
            r@ == Self::err_text(
                code,
                match message {
                    Some(m) => Some(m@),
                    None => None,
                },
            ),
    {
        if code == 0 {
            return String::from_str("0 (CUDA_SUCCESS)");
        }
        let mut s: String = dec(code as i64);
        match message {
            Some(m) => {
                s.append(" (");
                s.append(m);
                s.append(")");
            },
            None => {
                s.append(" (unknown)");
            },
        }
        s
    }
}

/// A result code of the driver with the handle that came with it; zero is none.
#[derive(Debug, Clone, Copy, PartialEq, Eq, Structural)]
pub struct CudaReply {
    pub rc: i32,
    pub handle: u64,
}

/// A context on the first device.
#[derive(Debug, Clone, Copy, PartialEq, Eq, Structural)]
pub struct CudaCtx {
    pub lib: CudaLib,
    pub ctx: u64,
}

/// The conversion kernel and the module that holds it.
#[derive(Debug, Clone, Copy, PartialEq, Eq, Structural)]
pub struct CuModule {
    pub module: u64,
    pub func: u64,
}

/// Name of the conversion kernel.
pub const CSC_KERNEL: &'static str = "argb_to_nv12_bt709";

impl CudaCtx {
    /// The context, where the library could be loaded, the first device was
    /// found, and creating a context on it gave one. `created` is asked for only
    /// where finding the device succeeded.
    pub fn open(lib: Option<CudaLib>, device: i32, created: CudaReply) -> (r: Option<CudaCtx>)
        ensures
            r == match lib {
                Some(l) => if device == 0 && created.rc == 0 && created.handle != 0 {
                    Some(CudaCtx { lib: l, ctx: created.handle })
                } else {
                    None
                },
                None => None,
            },
    {
        match lib {
            None => None,
            Some(l) => {
                if device != 0 {
                    return None;
                }
                if created.rc != 0 || created.handle == 0 {
                    return None;
                }
                Some(CudaCtx { lib: l, ctx: created.handle })
            },
        }
    }

    /// Loads the conversion kernel: the module, then the kernel in it, which is
    /// looked up only where the module was loaded. Also tells which module is to
    /// be unloaded again, because it holds no kernel.
    pub fn load_csc_module(&self, module: CudaReply, func: CudaReply) -> (r: (
        Option<CuModule>,
        Option<u64>,
    ))
        ensures
            r == if module.rc != 0 || module.handle == 0 {
                (None::<CuModule>, None::<u64>)
            } else if func.rc != 0 || func.handle == 0 {
                (None::<CuModule>, Some(module.handle))
            } else {
                (Some(CuModule { module: module.handle, func: func.handle }), None::<u64>)
            },
    {
        if module.rc != 0 || module.handle == 0 {
            return (None, None);
        }
        if func.rc != 0 || func.handle == 0 {
            return (None, Some(module.handle));
        }
        (Some(CuModule { module: module.handle, func: func.handle }), None)
    }

    /// Gives the context up. It is to be destroyed once, where there is one.
    pub fn release(&mut self) -> (r: Option<u64>)
        ensures
            r == if old(self).ctx != 0 {
                Some(old(self).ctx)
            } else {
                None
            },
            *final(self) == (CudaCtx { ctx: 0, ..*old(self) }),
    {
        let ctx: u64 = self.ctx;
        self.ctx = 0;
        if ctx != 0 {
            Some(ctx)
        } else {
            None
        }
    }
}

impl CuModule {
    /// Gives the module up. It is to be unloaded once, where there is one.
    pub fn release(&mut self) -> (r: Option<u64>)
        ensures
            r == if old(self).module != 0 {
                Some(old(self).module)
            } else {
                None
            },
            *final(self) == (CuModule { module: 0, ..*old(self) }),
    {
        let module: u64 = self.module;
        self.module = 0;
        if module != 0 {
            Some(module)
        } else {
            None
        }
    }
}

/// The library is there exactly where it could be opened, all twenty functions
/// were found and it could be initialised.
pub proof fn the_library_is_loaded_whole(opened: bool, found: usize, init: i32, r: Option<CudaLib>)
    requires
        call_ensures(CudaLib::load, (opened, found, init), r),
    ensures
        r is Some <==> opened && found == 20 && init == 0,
{
}

/// A context is opened exactly on a loaded library whose first device could be
/// found, and it is the one that was created.
pub proof fn contexts_are_the_created_ones(
    lib: Option<CudaLib>,
    device: i32,
    created: CudaReply,
    r: Option<CudaCtx>,
)
    requires
        call_ensures(CudaCtx::open, (lib, device, created), r),
    ensures
        r is Some <==> lib is Some && device == 0 && created.rc == 0 && created.handle != 0,
        r matches Some(c) ==> c.ctx == created.handle && lib == Some(c.lib),
{
}

/// A module is kept only together with its kernel: one that was loaded and holds
/// none is to be unloaded, and no other is.
pub proof fn modules_are_kept_with_their_kernel(
    ctx: CudaCtx,
    module: CudaReply,
    func: CudaReply,
    r: (Option<CuModule>, Option<u64>),
)
    requires
        call_ensures(CudaCtx::load_csc_module, (&ctx, module, func), r),
    ensures
        ({
            let loaded = module.rc == 0 && module.handle != 0;
            let held = func.rc == 0 && func.handle != 0;
            &&& r.0 is Some <==> loaded && held
            &&& r.1 is Some <==> loaded && !held
            &&& r.0 matches Some(m) ==> m.module == module.handle && m.func == func.handle
            &&& r.1 matches Some(u) ==> u == module.handle
        }),
{
}

/// What is given up is given up once: the second time there is nothing left.
pub proof fn giving_up_happens_once(r: Option<u64>, again: Option<u64>)
    ensures
        forall|a: &mut CudaCtx, b: &mut CudaCtx|
            *b == *final(a) && #[trigger] call_ensures(CudaCtx::release, (a,), r) && #[trigger]
            call_ensures(CudaCtx::release, (b,), again) ==> {
                &&& a.ctx != 0 ==> r == Some(a.ctx)
                &&& a.ctx == 0 ==> r is None
                &&& again is None
                &&& final(a).lib == a.lib
            },
        forall|a: &mut CuModule, b: &mut CuModule|
            *b == *final(a) && #[trigger] call_ensures(CuModule::release, (a,), r) && #[trigger]
            call_ensures(CuModule::release, (b,), again) ==> {
                &&& a.module != 0 ==> r == Some(a.module)
                &&& a.module == 0 ==> r is None
                &&& again is None
            },
{
}

/// A result code is described by its number and by what the driver says of it.
pub proof fn codes_are_described_by_number(
    lib: CudaLib,
    code: i32,
    message: &str,
    r: String,
    bare: String,
)
    requires
        call_ensures(CudaLib::err, (&lib, code, Some(message)), r),
        call_ensures(CudaLib::err, (&lib, code, None::<&str>), bare),
    ensures
        code == 0 ==> r@ == "0 (CUDA_SUCCESS)"@ && bare@ == r@,
        code != 0 ==> r@ == decimal(code as int) + " ("@ + message@ + ")"@,
        code != 0 ==> bare@ == decimal(code as int) + " (unknown)"@,
{
}

} // verus!
