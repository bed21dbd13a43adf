//! The workflow that adds a car: the car's row is written, each uploaded
//! image is saved under a name made of the car's number, the time and the
//! image's position and registered (the first as the main image), and the
//! list of image paths is stored on the car as JSON.

use vstd::prelude::*;
use crate::numtext::{decimal_digits, signed_decimal, u64_to_text, i64_to_text};
use crate::clock::utc_timestamp_secs;
use crate::text::{texts, lemma_texts_push};
use crate::json::json_string_list;

verus! {

/// Calls `serde_json::to_string` on a list of strings: a JSON array of the
/// strings, escaped as serde_json escapes them. The call never
/// fails: serde_json writes into a `Vec<u8>`, which takes every write, and a
/// string always serialises; an error would be handed back as its text.
#[verifier::external_body]
fn json_list_text(items: &Vec<String>) -> (res: Result<String, String>)
    ensures
        res is Ok,
        res matches Ok(s) ==> s@ == json_string_list(texts(items@)),
{
    match serde_json::to_string(items) {
        Ok(s) => Ok(s),
        Err(e) => Err(e.to_string()),
    }
}

/// Where saved car images go.
pub open spec fn image_dir() -> Seq<char> {
    "static/car_images"@
}

/// The path of the image at position `index` of car `car_id`, saved at
/// `timestamp` (seconds since the Unix epoch).
pub open spec fn image_path_of(car_id: nat, timestamp: i64, index: nat) -> Seq<char> {
    image_dir() + "/"@ + "car_"@ + decimal_digits(car_id) + "_"@ + signed_decimal(timestamp as int) + "_"@
        + decimal_digits(index) + ".jpg"@
}

/// Writes the path of the image at position `index` of car `car_id`, saved
/// at `timestamp`.
pub fn image_path(car_id: u64, timestamp: i64, index: usize) -> (res: String)
    ensures
        res@ == image_path_of(car_id as nat, timestamp, index as nat),
{
    let id = u64_to_text(car_id);
    let ts = i64_to_text(timestamp);
    let ix = u64_to_text(index as u64);
    String::from_str("static/car_images").concat("/").concat("car_").concat(id.as_str()).concat("_").concat(
        ts.as_str(),
    ).concat("_").concat(ix.as_str()).concat(".jpg")
}

/// Where the addition stands.
#[derive(Clone, Copy, PartialEq, Eq, Structural)]
pub enum AddCarStage {
    InsertingCar,
    CopyingImage,
    RegisteringImage,
    SavingUrls,
    Finished,
}

/// What the store reported for the last action; errors carry their text.
pub enum AddCarEvent {
    /// The new car's row number.
    CarInserted(Result<u64, String>),
    ImageCopied(Result<(), String>),
    ImageRegistered(Result<(), String>),
    UrlsSaved(Result<(), String>),
}

/// What the store is to do next.
pub enum AddCarAction {
    /// Write the car's row from the form, owned by `owner`, with this status
    /// and an empty image list.
    InsertCar { owner: i32, status: String },
    /// Save the uploaded image at `index` to `path`; before the first image
    /// the image folder is made (ignoring that outcome).
    CopyImage { index: usize, path: String, make_folder: bool },
    /// Register the saved image of the car.
    RegisterImage { car_id: u64, path: String, is_main: bool },
    /// Store the JSON list of image paths on the car.
    SaveUrls { car_id: u64, json: String },
    /// Answer: a message, or the error's text.
    Respond(Result<String, String>),
}

/// `path` is the path of the image at position `index` of car `car_id`,
/// saved at some time.
pub open spec fn is_image_path(car_id: nat, path: Seq<char>, index: nat) -> bool {
    exists|t: i64| path == image_path_of(car_id, t, index)
}

/// Every path is the path of the image at its position, saved at some time.
pub open spec fn paths_follow(car_id: nat, paths: Seq<Seq<char>>) -> bool {
    forall|k: int| 0 <= k < paths.len() ==> #[trigger] is_image_path(car_id, paths[k], k as nat)
}

/// The state of one addition.
pub struct AddCar {
    stage: AddCarStage,
    image_count: usize,
    car_id: u64,
    paths: Vec<String>,
    pending: String,
    stamps: Ghost<Seq<i64>>,
    pending_stamp: Ghost<i64>,
}

/// Each path is the path of the image at its position saved at the matching
/// time.
spec fn paths_stamped(car_id: nat, paths: Seq<Seq<char>>, stamps: Seq<i64>) -> bool {
    &&& paths.len() == stamps.len()
    &&& forall|k: int| 0 <= k < paths.len() ==> #[trigger] paths[k] == image_path_of(car_id, stamps[k], k as nat)
}

proof fn lemma_stamped_follow(car_id: nat, paths: Seq<Seq<char>>, stamps: Seq<i64>)
    requires
        paths_stamped(car_id, paths, stamps),
    ensures
        paths_follow(car_id, paths),
{
    assert forall|k: int| 0 <= k < paths.len() implies #[trigger] is_image_path(car_id, paths[k], k as nat) by {
        assert(paths[k] == image_path_of(car_id, stamps[k], k as nat));
    }
}

impl AddCar {
    #[verifier::type_invariant]
    spec fn well_formed(self) -> bool {
        &&& self.paths@.len() <= self.image_count
        &&& (self.stage == AddCarStage::CopyingImage || self.stage == AddCarStage::RegisteringImage)
            ==> self.paths@.len() < self.image_count
            && self.pending@ == image_path_of(self.car_id as nat, self.pending_stamp@, self.paths@.len())
        &&& paths_stamped(self.car_id as nat, texts(self.paths@), self.stamps@)
    }

    pub closed spec fn stage(self) -> AddCarStage {
        self.stage
    }

    /// How many images were uploaded.
    pub closed spec fn image_count(self) -> nat {
        self.image_count as nat
    }

    /// The new car's row number.
    pub closed spec fn car_id(self) -> nat {
        self.car_id as nat
    }

    /// The paths of the images registered so far.
    pub closed spec fn paths(self) -> Seq<Seq<char>> {
        texts(self.paths@)
    }

    pub open spec fn accepts(self, event: AddCarEvent) -> bool {
        match self.stage() {
            AddCarStage::InsertingCar => event is CarInserted,
            AddCarStage::CopyingImage => event is ImageCopied,
            AddCarStage::RegisteringImage => event is ImageRegistered,
            AddCarStage::SavingUrls => event is UrlsSaved,
            AddCarStage::Finished => false,
        }
    }

    /// A new addition of a car owned by `owner` with `image_count` uploaded
    /// images, and its first action: writing the car's row, available.
    pub fn start(image_count: usize, owner: i32) -> (res: (AddCar, AddCarAction))
        ensures
            res.0.stage() == AddCarStage::InsertingCar,
            res.0.image_count() == image_count,
            res.0.paths().len() == 0,
            res.1 matches AddCarAction::InsertCar { owner: o, status } && o == owner && status@ == "Available"@,
    {
        let car = AddCar {
            stage: AddCarStage::InsertingCar,
            image_count,
            car_id: 0,
            paths: Vec::new(),
            pending: String::new(),
            stamps: Ghost(Seq::empty()),
            pending_stamp: Ghost(0),
        };
        assert(texts(car.paths@) =~= Seq::<Seq<char>>::empty());
        proof {
            reveal_strlit("Available");
        }
        (car, AddCarAction::InsertCar { owner, status: String::from_str("Available") })
    }

    pub fn expects(&self, event: &AddCarEvent) -> (res: bool)
        ensures
            res == self.accepts(*event),
    {
        match self.stage {
            AddCarStage::InsertingCar => matches!(event, AddCarEvent::CarInserted(_)),
            AddCarStage::CopyingImage => matches!(event, AddCarEvent::ImageCopied(_)),
            AddCarStage::RegisteringImage => matches!(event, AddCarEvent::ImageRegistered(_)),
            AddCarStage::SavingUrls => matches!(event, AddCarEvent::UrlsSaved(_)),
            AddCarStage::Finished => false,
        }
    }

    /// The action after `self.paths` images are registered: the next image,
    /// or the list of paths.
    fn next_image(self) -> (res: (AddCar, AddCarAction))
        requires
            self.stage() == AddCarStage::InsertingCar || self.stage() == AddCarStage::RegisteringImage,
            self.paths().len() <= self.image_count(),
            paths_stamped(self.car_id(), self.paths(), self.stamps@),
        ensures
            res.0.car_id() == self.car_id(),
            res.0.image_count() == self.image_count(),
            res.0.paths() == self.paths(),
            res.0.stamps@ == self.stamps@,
            self.paths().len() < self.image_count() ==> {
                &&& res.0.stage() == AddCarStage::CopyingImage
                &&& res.1 matches AddCarAction::CopyImage { index, path, make_folder }
                &&& index == self.paths().len() && make_folder == (index == 0)
                &&& is_image_path(self.car_id(), path@, index as nat)
            },
            self.paths().len() == self.image_count() ==> {
                &&& res.0.stage() == AddCarStage::SavingUrls
                &&& res.1 matches AddCarAction::SaveUrls { car_id, json }
                &&& car_id == self.car_id() && json@ == json_string_list(self.paths())
            },
    {
        let AddCar { stage, image_count, car_id, paths, pending, stamps, pending_stamp } = self;
        let index = paths.len();
        if index < image_count {
            let ts = utc_timestamp_secs();
            let path = image_path(car_id, ts, index);
            assert(path@ == image_path_of(car_id as nat, ts, index as nat));
            let sent = path.clone();
            (
                AddCar {
                    stage: AddCarStage::CopyingImage,
                    image_count,
                    car_id,
                    paths,
                    pending: path,
                    stamps,
                    pending_stamp: Ghost(ts),
                },
                AddCarAction::CopyImage { index, path: sent, make_folder: index == 0 },
            )
        } else {
            match json_list_text(&paths) {
                Ok(json) => (
                    AddCar { stage: AddCarStage::SavingUrls, image_count, car_id, paths, pending, stamps, pending_stamp },
                    AddCarAction::SaveUrls { car_id, json },
                ),
                Err(e) => (
                    AddCar { stage: AddCarStage::Finished, image_count, car_id, paths, pending, stamps, pending_stamp },
                    AddCarAction::Respond(Err(e)),
                ),
            }
        }
    }

    /// Takes the store's report on the last action and decides the next one.
    /// Images are saved and registered one by one in upload order, the first
    /// as the main image, and the stored list holds exactly their paths.
    pub fn step(self, event: AddCarEvent) -> (res: (AddCar, AddCarAction))
        requires
            self.accepts(event),
        ensures
            res.0.image_count() == self.image_count(),
            match event {
                AddCarEvent::CarInserted(Err(e)) => res.0.stage() == AddCarStage::Finished
                    && (res.1 matches AddCarAction::Respond(Err(t)) && t@ == e@),
                AddCarEvent::CarInserted(Ok(id)) => res.0.car_id() == id && res.0.paths().len() == 0
                    && (self.image_count() > 0 ==> (res.1 matches AddCarAction::CopyImage { index, path, make_folder }
                        && index == 0 && make_folder
                        && is_image_path(id as nat, path@, 0)))
                    && (self.image_count() > 0 ==> res.0.stage() == AddCarStage::CopyingImage)
                    && (self.image_count() == 0 ==> res.0.stage() == AddCarStage::SavingUrls
                        && (res.1 matches AddCarAction::SaveUrls { car_id, json }
                        && car_id == id && json@ == json_string_list(Seq::empty()))),
                AddCarEvent::ImageCopied(Err(e)) => res.0.stage() == AddCarStage::Finished
                    && (res.1 matches AddCarAction::Respond(Err(t)) && t@ == e@),
                AddCarEvent::ImageCopied(Ok(())) => res.0.stage() == AddCarStage::RegisteringImage
                    && res.0.paths() == self.paths()
                    && (res.1 matches AddCarAction::RegisterImage { car_id, path, is_main }
                        && car_id == self.car_id() && is_main == (self.paths().len() == 0)
                        && is_image_path(self.car_id(), path@, self.paths().len())),
                AddCarEvent::ImageRegistered(Err(e)) => res.0.stage() == AddCarStage::Finished
                    && (res.1 matches AddCarAction::Respond(Err(t)) && t@ == e@),
                AddCarEvent::ImageRegistered(Ok(())) => res.0.paths().len() == self.paths().len() + 1
                    && res.0.paths().take(self.paths().len() as int) == self.paths()
                    && res.0.car_id() == self.car_id()
                    && (res.0.paths().len() < self.image_count() ==> res.0.stage() == AddCarStage::CopyingImage
                        && (res.1 matches AddCarAction::CopyImage { index, path, make_folder }
                        && index == res.0.paths().len() && !make_folder
                        && is_image_path(self.car_id(), path@, index as nat)))
                    && (res.0.paths().len() == self.image_count() ==> res.0.stage() == AddCarStage::SavingUrls
                        && (res.1 matches AddCarAction::SaveUrls { car_id, json }
                        && car_id == self.car_id() && json@ == json_string_list(res.0.paths()))),
                AddCarEvent::UrlsSaved(Err(e)) => res.0.stage() == AddCarStage::Finished
                    && (res.1 matches AddCarAction::Respond(Err(t)) && t@ == e@),
                AddCarEvent::UrlsSaved(Ok(())) => res.0.stage() == AddCarStage::Finished
                    && (res.1 matches AddCarAction::Respond(Ok(m)) && m@ == "Car added successfully"@),
            },
            // The stored list is the list of every image's path, in order.
            res.1 matches AddCarAction::SaveUrls { car_id, json } ==> res.0.paths().len()
                == self.image_count() && paths_follow(car_id as nat, res.0.paths())
                && json@ == json_string_list(res.0.paths()),
    {
        proof {
            use_type_invariant(&self);
        }
        let AddCar { stage, image_count, car_id, paths, pending, stamps, pending_stamp } = self;
        match event {
            AddCarEvent::CarInserted(Err(e)) => (
                AddCar { stage: AddCarStage::Finished, image_count, car_id, paths, pending, stamps, pending_stamp },
                AddCarAction::Respond(Err(e)),
            ),
            AddCarEvent::CarInserted(Ok(id)) => {
                let fresh: Vec<String> = Vec::new();
                let base = AddCar {
                    stage: AddCarStage::InsertingCar,
                    image_count,
                    car_id: id,
                    paths: fresh,
                    pending,
                    stamps: Ghost(Seq::empty()),
                    pending_stamp,
                };
                assert(texts(base.paths@) =~= Seq::<Seq<char>>::empty());
                let (next, action) = base.next_image();
                proof {
                    lemma_stamped_follow(id as nat, next.paths(), next.stamps@);
                }
                (next, action)
            },
            AddCarEvent::ImageCopied(Err(e)) => (
                AddCar { stage: AddCarStage::Finished, image_count, car_id, paths, pending, stamps, pending_stamp },
                AddCarAction::Respond(Err(e)),
            ),
            AddCarEvent::ImageCopied(Ok(())) => {
                let sent = pending.clone();
                let is_main = paths.len() == 0;
                (
                    AddCar { stage: AddCarStage::RegisteringImage, image_count, car_id, paths, pending, stamps, pending_stamp },
                    AddCarAction::RegisterImage { car_id, path: sent, is_main },
                )
            },
            AddCarEvent::ImageRegistered(Err(e)) => (
                AddCar { stage: AddCarStage::Finished, image_count, car_id, paths, pending, stamps, pending_stamp },
                AddCarAction::Respond(Err(e)),
            ),
            AddCarEvent::ImageRegistered(Ok(())) => {
                let mut grown = paths;
                let ghost before = grown@;
                let added = pending.clone();
                proof {
                    lemma_texts_push(before, added);
                }
                grown.push(added);
                let ghost new_stamps = stamps@.push(pending_stamp@);
                proof {
                    assert(texts(grown@).take(before.len() as int) =~= texts(before));
                    assert forall|k: int| 0 <= k < texts(grown@).len() implies #[trigger] texts(grown@)[k]
                        == image_path_of(car_id as nat, new_stamps[k], k as nat) by {
                        if k < before.len() {
                            assert(texts(grown@)[k] == texts(before)[k]);
                        }
                    }
                }
                let next = AddCar {
                    stage: AddCarStage::InsertingCar,
                    image_count,
                    car_id,
                    paths: grown,
                    pending,
                    stamps: Ghost(new_stamps),
                    pending_stamp,
                };
                let (after, action) = next.next_image();
                proof {
                    lemma_stamped_follow(car_id as nat, after.paths(), after.stamps@);
                }
                (after, action)
            },
            AddCarEvent::UrlsSaved(Err(e)) => (
                AddCar { stage: AddCarStage::Finished, image_count, car_id, paths, pending, stamps, pending_stamp },
                AddCarAction::Respond(Err(e)),
            ),
            AddCarEvent::UrlsSaved(Ok(())) => {
                proof {
                    lemma_stamped_follow(car_id as nat, texts(paths@), stamps@);
                }
                (
                    AddCar { stage: AddCarStage::Finished, image_count, car_id, paths, pending, stamps, pending_stamp },
                    AddCarAction::Respond(Ok(String::from_str("Car added successfully"))),
                )
            },
        }
    }
}

} // verus!
