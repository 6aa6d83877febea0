//! What the background worker computes between reading a file and writing
//! its result into the browser.

use crate::app::actions::all_actions;
use crate::app::state::ImageInfo;
use crate::app::App;
use crate::image::{
    can_rasterize, fits_u32, grid_rows, image_fit_size, raster, raster_fits, rasterize,
    resampled_cell, triangle_resized, Cell, PixelBuffer,
};
use crate::io::WorkRequest;
use crate::utils::{get_image_paths, picture_listing, ImageMode, ImagePath};
use vstd::prelude::*;

verus! {

/// How a request ended.
#[derive(Debug)]
pub enum IoResult {
    /// The directory was read: these are its entries, in any order.
    Listed(Vec<ImagePath>),
    /// The picture was rendered: its cells and what is known about it.
    Rendered(Vec<Vec<Cell>>, ImageInfo),
    /// The request failed; there is nothing to write.
    Failed,
}

/// What is shown about a loaded picture: its file name, its size in bytes,
/// zero where the size could not be read, and its width and height.
pub fn image_info(path: &ImagePath, size: Option<u64>, picture: &PixelBuffer) -> (info: ImageInfo)
    ensures
        info.name@ == path.file_name@,
        info.size == match size {
            Some(bytes) => bytes,
            None => 0,
        },
        info.dimensions == (picture.spec_width(), picture.spec_height()),
{
    let bytes = match size {
        Some(bytes) => bytes,
        None => 0,
    };
    ImageInfo { name: path.file_name.clone(), size: bytes, dimensions: picture.dimensions() }
}

/// The size in cells at which the request shows a picture.
pub open spec fn shown_size(request: WorkRequest, picture: PixelBuffer) -> (int, int) {
    picture.spec_fit(request.term_size.width, request.term_size.height)
}

/// The bytes of the picture resampled to the size at which the request shows
/// it.
pub open spec fn shown_pixels(request: WorkRequest, picture: PixelBuffer) -> Seq<u8> {
    triangle_resized(
        picture.spec_data(),
        picture.spec_width(),
        picture.spec_height(),
        shown_size(request, picture).0 as u32,
        shown_size(request, picture).1 as u32,
    )
}

/// Renders a decoded picture for its request: fits it into the picture area
/// of the request, rasterizes it at that size and says what is known about
/// it. There is one row of cells per row of resampled pixels and one cell
/// per pixel: blank where the pixel is fully transparent, else on the pixel's
/// colour, or in gray-scale mode on a gray of its luma. Nothing comes back
/// where the picture cannot be resampled to that size.
pub fn do_load_image(
    request: &WorkRequest,
    picture: &PixelBuffer,
    size: Option<u64>,
    mode: ImageMode,
) -> (rendered: Option<(Vec<Vec<Cell>>, ImageInfo)>)
    ensures
        fits_u32(shown_size(*request, *picture)),
        rendered is Some <==> raster_fits(
            picture.spec_width(),
            picture.spec_height(),
            shown_size(*request, *picture).0 as u32,
            shown_size(*request, *picture).1 as u32,
        ),
        rendered matches Some((cells, info)) ==> {
            &&& grid_rows(cells@) == raster(
                picture.spec_data(),
                picture.spec_width(),
                picture.spec_height(),
                shown_size(*request, *picture).0 as u32,
                shown_size(*request, *picture).1 as u32,
                mode,
            )
            &&& cells@.len() == shown_size(*request, *picture).1
            &&& forall|y: int|
                0 <= y < cells@.len() ==> (#[trigger] cells@[y])@.len() == shown_size(
                    *request,
                    *picture,
                ).0
            &&& shown_pixels(*request, *picture).len() == 4 * shown_size(*request, *picture).0
                * shown_size(*request, *picture).1
            &&& forall|y: int, x: int|
                0 <= y < shown_size(*request, *picture).1 && 0 <= x < shown_size(
                    *request,
                    *picture,
                ).0 ==> #[trigger] cells@[y]@[x] == resampled_cell(
                    shown_pixels(*request, *picture),
                    shown_size(*request, *picture).0,
                    x,
                    y,
                    mode,
                )
            &&& forall|y: int, x: int|
                0 <= y < shown_size(*request, *picture).1 && 0 <= x < shown_size(
                    *request,
                    *picture,
                ).0 && shown_pixels(*request, *picture)[4 * (y * shown_size(
                    *request,
                    *picture,
                ).0 + x) + 3] == 0 ==> #[trigger] cells@[y]@[x] == Cell::Blank
            &&& info.name@ == request.path.file_name@
            &&& info.size == match size {
                Some(bytes) => bytes,
                None => 0,
            }
            &&& info.dimensions == (picture.spec_width(), picture.spec_height())
        },
{
    let (w, h) = image_fit_size(picture, request.term_size.width, request.term_size.height);
    if !can_rasterize(picture, w, h) {
        return None;
    }
    let cells = rasterize(picture, w, h, mode);
    let info = image_info(&request.path, size, picture);
    Some((cells, info))
}

/// Starts browsing a directory that was read: its pictures become the
/// candidates, in listing order.
pub fn do_initialize(app: &mut App, entries: Vec<ImagePath>)
    ensures
        final(app).spec_actions() == all_actions(),
        final(app).spec_loading() == old(app).spec_loading(),
        final(app).spec_config() == old(app).spec_config(),
        final(app).spec_state().fresh(picture_listing(entries@)),
        final(app).spec_state().wf(),
{
    app.initialized(get_image_paths(entries));
}

/// Writes the outcome of a request into the browser and marks the request as
/// finished. However the request ended, nothing is loading afterwards. A
/// listing starts the browsing; a rendering replaces the picture rendered
/// last and what is known about it, whatever is selected by now; a failure
/// leaves the state as it is.
pub fn handle_io_event(app: &mut App, result: IoResult)
    ensures
        !final(app).spec_loading(),
        final(app).spec_config() == old(app).spec_config(),
        match result {
            IoResult::Listed(entries) => {
                &&& final(app).spec_actions() == all_actions()
                &&& final(app).spec_state().fresh(picture_listing(entries@))
            },
            IoResult::Rendered(cells, info) => {
                &&& final(app).spec_actions() == old(app).spec_actions()
                &&& final(app).spec_state().same_but_image(old(app).spec_state())
                &&& old(app).spec_state() is Initialized ==> final(app).spec_state().spec_image()
                    == Some(grid_rows(cells@)) && final(app).spec_state().spec_image_info() == Some(
                    info,
                )
            },
            IoResult::Failed => {
                &&& final(app).spec_actions() == old(app).spec_actions()
                &&& final(app).spec_state() == old(app).spec_state()
            },
        },
        result is Listed || old(app).spec_state().wf() ==> final(app).spec_state().wf(),
{
    match result {
        IoResult::Listed(entries) => {
            do_initialize(app, entries);
        },
        IoResult::Rendered(cells, info) => {
            app.state_mut().set_rendered_result(cells, info);
        },
        IoResult::Failed => {},
    }
    app.loaded();
}

} // verus!
