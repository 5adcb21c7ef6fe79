//! What a request learns about the device it is for.
use vstd::prelude::*;

use crate::error::Canonical;
use crate::resource::{fully_qualified_spec, local_under_spec, Resource, ResourceModel};
use crate::storage::{content_resource_spec, find_device, Storage};

verus! {

/// A device as a request sees it: its id, the absolute URL of its document,
/// and the address of its rendered image.
#[derive(Debug)]
pub struct Info {
    pub id: String,
    pub content_url: String,
    pub image_url: Resource,
}

/// The addresses of device `id` on a service whose origin is `origin`.
pub open spec fn info_spec(
    devices: Seq<(Seq<char>, crate::storage::SetupModel)>,
    id: Seq<char>,
    origin: Seq<char>,
) -> Result<(Seq<char>, ResourceModel), Canonical> {
    match find_device(devices, id) {
        None => Err(Canonical::NotFound),
        Some(setup) => match content_resource_spec(setup.0, id) {
            None => Err(Canonical::NotFound),
            Some(res) => match fully_qualified_spec(res, origin) {
                Err(_) => Err(Canonical::FailedPrecondition),
                Ok(url) => match local_under_spec("/screen/"@, id) {
                    None => Err(Canonical::FailedPrecondition),
                    Some(image) => Ok((url, image)),
                },
            },
        },
    }
}

impl Info {
    /// Looks device `id` up: an unknown device is not found.
    pub fn for_device(storage: &Storage, id: &str, origin: &str) -> (r: Result<Info, Canonical>)
        ensures
            match r {
                Ok(info) => info.id@ == id@ && info_spec(storage@, id@, origin@) == Ok::<
                    (Seq<char>, ResourceModel),
                    Canonical,
                >((info.content_url@, info.image_url@)),
                Err(e) => info_spec(storage@, id@, origin@) == Err::<
                    (Seq<char>, ResourceModel),
                    Canonical,
                >(e),
            },
    {
        let device = match storage.device_by_id(id) {
            Some(d) => d,
            None => {
                return Err(Canonical::NotFound);
            },
        };
        let content_url = match device.content_resource.fully_qualified_url(origin) {
            Ok(u) => u,
            Err(_) => {
                return Err(Canonical::FailedPrecondition);
            },
        };
        match Resource::rendering(id) {
            Some(image_url) => Ok(Info { id: device.id, content_url, image_url }),
            None => Err(Canonical::FailedPrecondition),
        }
    }
}

} // verus!
