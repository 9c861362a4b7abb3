//! A model of the graphics-device factory.
//!
//! The real factory creates and destroys pipelines, pipeline layouts and
//! shader modules; those objects have manual lifetimes, so a pass must
//! release exactly what it created, on every path. The model gives each
//! created object a fresh handle and counts create and destroy calls, which
//! is what the release obligations are stated over. Creation of a graphics
//! pipeline can fail; the `fail_pipeline_creation` flag stands for that
//! externally determined outcome.

use vstd::prelude::*;

verus! {

/// A handle to one GPU object (pipeline, pipeline layout or shader module).
#[derive(Clone, Copy, Debug, PartialEq, Eq, Structural)]
pub struct Handle(pub u64);

/// Why a pass failed to build. Build errors are fatal to the pass's
/// construction and are propagated, never recovered locally.
#[derive(Clone, Copy, Debug, PartialEq, Eq, Structural)]
pub enum BuildError {
    /// The shader/effect compiler rejected the program.
    EffectCompilation,
    /// The device could not create the graphics pipeline.
    PipelineCreation,
}

/// The device factory: hands out fresh handles and counts create and destroy
/// calls for the objects whose lifetimes the passes manage.
pub struct Factory {
    /// Externally determined: the next graphics-pipeline creation fails.
    pub fail_pipeline_creation: bool,
    /// Create calls made so far.
    pub created: u64,
    /// Destroy calls made so far.
    pub destroyed: u64,
    /// The next handle to hand out.
    pub next_handle: u64,
}

impl Factory {
    /// A fresh factory whose pipeline creations succeed.
    pub fn new() -> (f: Factory)
        ensures
            f == (Factory {
                fail_pipeline_creation: false,
                created: 0,
                destroyed: 0,
                next_handle: 0,
            }),
    {
        Factory { fail_pipeline_creation: false, created: 0, destroyed: 0, next_handle: 0 }
    }

    /// A fresh factory that will fail every pipeline creation; stands for a
    /// device on which pipeline compilation is rejected.
    pub fn failing_pipelines() -> (f: Factory)
        ensures
            f == (Factory {
                fail_pipeline_creation: true,
                created: 0,
                destroyed: 0,
                next_handle: 0,
            }),
    {
        Factory { fail_pipeline_creation: true, created: 0, destroyed: 0, next_handle: 0 }
    }

    /// Creates a pipeline layout from the pass's resource-set layouts.
    pub fn create_pipeline_layout(&mut self) -> (h: Handle)
        requires
            old(self).created < u64::MAX,
            old(self).next_handle < u64::MAX,
        ensures
            h == Handle(old(self).next_handle),
            final(self).created == old(self).created + 1,
            final(self).next_handle == old(self).next_handle + 1,
            final(self).destroyed == old(self).destroyed,
            final(self).fail_pipeline_creation == old(self).fail_pipeline_creation,
    {
        let h = Handle(self.next_handle);
        self.created = self.created + 1;
        self.next_handle = self.next_handle + 1;
        h
    }

    /// Compiles one shader module from built-in source.
    pub fn create_shader_module(&mut self) -> (h: Handle)
        requires
            old(self).created < u64::MAX,
            old(self).next_handle < u64::MAX,
        ensures
            h == Handle(old(self).next_handle),
            final(self).created == old(self).created + 1,
            final(self).next_handle == old(self).next_handle + 1,
            final(self).destroyed == old(self).destroyed,
            final(self).fail_pipeline_creation == old(self).fail_pipeline_creation,
    {
        let h = Handle(self.next_handle);
        self.created = self.created + 1;
        self.next_handle = self.next_handle + 1;
        h
    }

    /// Creates a graphics pipeline. The outcome is the device's to decide:
    /// on failure nothing was created and no handle is consumed.
    pub fn create_graphics_pipeline(&mut self) -> (r: Result<Handle, BuildError>)
        requires
            old(self).created < u64::MAX,
            old(self).next_handle < u64::MAX,
        ensures
            old(self).fail_pipeline_creation ==> r == Err::<Handle, BuildError>(
                BuildError::PipelineCreation,
            ) && *final(self) == *old(self),
            !old(self).fail_pipeline_creation ==> {
                &&& r == Ok::<Handle, BuildError>(Handle(old(self).next_handle))
                &&& final(self).created == old(self).created + 1
                &&& final(self).next_handle == old(self).next_handle + 1
                &&& final(self).destroyed == old(self).destroyed
                &&& final(self).fail_pipeline_creation == old(self).fail_pipeline_creation
            },
    {
        if self.fail_pipeline_creation {
            Err(BuildError::PipelineCreation)
        } else {
            let h = Handle(self.next_handle);
            self.created = self.created + 1;
            self.next_handle = self.next_handle + 1;
            Ok(h)
        }
    }

    /// Destroys one object the pass created.
    pub fn destroy(&mut self, handle: Handle)
        requires
            old(self).destroyed < u64::MAX,
        ensures
            final(self).destroyed == old(self).destroyed + 1,
            final(self).created == old(self).created,
            final(self).next_handle == old(self).next_handle,
            final(self).fail_pipeline_creation == old(self).fail_pipeline_creation,
    {
        let _ = handle;
        self.destroyed = self.destroyed + 1;
    }
}

} // verus!
