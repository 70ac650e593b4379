//! Buffer guards: exclusive owners of compositor and GPU protocol handles
//! whose release is single-shot and idempotent.
//!
//! Each guard owns its handles alone; handles are never shared across
//! guards. Releasing twice is harmless: the underlying destroy requests go
//! out exactly once, on the first call, so a guard can be released on every
//! exit path without double-freeing. A guard that borrows the context its
//! handle depends on (the EGL image guard) cannot outlive that context, so
//! destruction stays dependent-first.

use vstd::prelude::*;

verus! {

#[verifier::external_type_specification]
#[verifier::external_body]
pub struct ExWlBuffer(wayland_client::protocol::wl_buffer::WlBuffer);

#[verifier::external_type_specification]
#[verifier::external_body]
pub struct ExWlShmPool(wayland_client::protocol::wl_shm_pool::WlShmPool);

#[verifier::external_type_specification]
#[verifier::external_body]
#[verifier::reject_recursive_types(T)]
pub struct ExEglInstance<T>(khronos_egl::Instance<T>);

#[verifier::external_type_specification]
#[verifier::external_body]
pub struct ExEglStatic(khronos_egl::Static);

#[verifier::external_type_specification]
#[verifier::external_body]
pub struct ExEglDisplay(khronos_egl::Display);

#[verifier::external_type_specification]
#[verifier::external_body]
pub struct ExEglImage(khronos_egl::Image);

/// Relies on WlBuffer::destroy: sends the protocol destroy request. On a
/// dead connection the generated code returns without effect and send
/// errors are discarded there, so the call never fails.
#[verifier::external_body]
fn destroy_wl_buffer(buffer: &wayland_client::protocol::wl_buffer::WlBuffer) {
    buffer.destroy();
}

/// Relies on WlShmPool::destroy: the same protocol teardown as
/// WlBuffer::destroy.
#[verifier::external_body]
fn destroy_wl_shm_pool(pool: &wayland_client::protocol::wl_shm_pool::WlShmPool) {
    pool.destroy();
}

/// Relies on khronos_egl::Instance::destroy_image (eglDestroyImage). A
/// failed destruction is only a release warning: teardown must not fail,
/// so the error is dropped after the call.
#[verifier::external_body]
fn destroy_egl_image(
    instance: &khronos_egl::Instance<khronos_egl::Static>,
    display: &khronos_egl::Display,
    image: &khronos_egl::Image,
) {
    let _ = instance.destroy_image(*display, *image);
}

/// Guard of a shared-memory screen-copy transaction: owns the compositor
/// buffer and the shared-memory pool behind it.
pub struct FrameGuard {
    buffer: wayland_client::protocol::wl_buffer::WlBuffer,
    shm_pool: wayland_client::protocol::wl_shm_pool::WlShmPool,
    released: bool,
    destroys_sent: Ghost<nat>,
}

impl FrameGuard {
    /// Whether the handles have been released.
    pub closed spec fn is_released(&self) -> bool {
        self.released
    }

    /// How many times the destroy requests have been sent.
    pub closed spec fn destroys(&self) -> nat {
        self.destroys_sent@
    }

    /// The destroy requests go out exactly when the guard is released.
    pub closed spec fn wf(&self) -> bool {
        self.destroys() == if self.is_released() {
            1nat
        } else {
            0nat
        }
    }

    /// Take exclusive ownership of a buffer and the pool it was cut from,
    /// immediately after their creation.
    pub fn new(
        buffer: wayland_client::protocol::wl_buffer::WlBuffer,
        shm_pool: wayland_client::protocol::wl_shm_pool::WlShmPool,
    ) -> (g: FrameGuard)
        ensures
            g.wf(),
            !g.is_released(),
            g.destroys() == 0,
    {
        FrameGuard { buffer, shm_pool, released: false, destroys_sent: Ghost(0) }
    }

    /// Release the owned handles. Single-shot and idempotent: however often
    /// this runs, the destroy requests are sent exactly once, so releasing
    /// on every exit path never double-frees.
    pub fn release(&mut self)
        requires
            old(self).wf(),
        ensures
            final(self).wf(),
            final(self).is_released(),
            final(self).destroys() == 1,
    {
        if !self.released {
            destroy_wl_buffer(&self.buffer);
            destroy_wl_shm_pool(&self.shm_pool);
            self.released = true;
            self.destroys_sent = Ghost(1);
        }
    }
}

/// Guard of a DMA-BUF screen-copy transaction: owns the compositor buffer
/// wrapping the GPU buffer object.
pub struct DMAFrameGuard {
    buffer: wayland_client::protocol::wl_buffer::WlBuffer,
    released: bool,
    destroys_sent: Ghost<nat>,
}

impl DMAFrameGuard {
    /// Whether the handle has been released.
    pub closed spec fn is_released(&self) -> bool {
        self.released
    }

    /// How many times the destroy request has been sent.
    pub closed spec fn destroys(&self) -> nat {
        self.destroys_sent@
    }

    /// The destroy request goes out exactly when the guard is released.
    pub closed spec fn wf(&self) -> bool {
        self.destroys() == if self.is_released() {
            1nat
        } else {
            0nat
        }
    }

    /// Take exclusive ownership of the compositor buffer.
    pub fn new(buffer: wayland_client::protocol::wl_buffer::WlBuffer) -> (g: DMAFrameGuard)
        ensures
            g.wf(),
            !g.is_released(),
            g.destroys() == 0,
    {
        DMAFrameGuard { buffer, released: false, destroys_sent: Ghost(0) }
    }

    /// Release the owned handle. Single-shot and idempotent, as for
    /// `FrameGuard::release`.
    pub fn release(&mut self)
        requires
            old(self).wf(),
        ensures
            final(self).wf(),
            final(self).is_released(),
            final(self).destroys() == 1,
    {
        if !self.released {
            destroy_wl_buffer(&self.buffer);
            self.released = true;
            self.destroys_sent = Ghost(1);
        }
    }
}

/// Guard of an imported EGL image. It borrows the EGL instance and display
/// the image depends on, so the image is necessarily released before them.
pub struct EGLImageGuard<'a> {
    image: khronos_egl::Image,
    egl_instance: &'a khronos_egl::Instance<khronos_egl::Static>,
    egl_display: khronos_egl::Display,
    released: bool,
    destroys_sent: Ghost<nat>,
}

impl<'a> EGLImageGuard<'a> {
    /// Whether the image has been released.
    pub closed spec fn is_released(&self) -> bool {
        self.released
    }

    /// How many times the destruction has been requested.
    pub closed spec fn destroys(&self) -> nat {
        self.destroys_sent@
    }

    /// The destruction is requested exactly when the guard is released.
    pub closed spec fn wf(&self) -> bool {
        self.destroys() == if self.is_released() {
            1nat
        } else {
            0nat
        }
    }

    /// Take exclusive ownership of an imported image, immediately after its
    /// creation on the given instance and display.
    pub fn new(
        image: khronos_egl::Image,
        egl_instance: &'a khronos_egl::Instance<khronos_egl::Static>,
        egl_display: khronos_egl::Display,
    ) -> (g: EGLImageGuard<'a>)
        ensures
            g.wf(),
            !g.is_released(),
            g.destroys() == 0,
    {
        EGLImageGuard { image, egl_instance, egl_display, released: false, destroys_sent: Ghost(0) }
    }

    /// Release the owned image. Single-shot and idempotent, as for
    /// `FrameGuard::release`.
    pub fn release(&mut self)
        requires
            old(self).wf(),
        ensures
            final(self).wf(),
            final(self).is_released(),
            final(self).destroys() == 1,
    {
        if !self.released {
            destroy_egl_image(self.egl_instance, &self.egl_display, &self.image);
            self.released = true;
            self.destroys_sent = Ghost(1);
        }
    }
}

} // verus!
