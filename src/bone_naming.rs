use vstd::prelude::*;

verus! {

/// Which naming scheme the bones of a loaded model get.
#[derive(Clone, Copy, Debug, PartialEq, Eq, Structural)]
pub enum BoneNaming {
    /// The names as the source wrote them.
    Default,
    /// The slot names of the Mecanim humanoid skeleton.
    Mecanim,
}

/// A slot of a humanoid skeleton.
#[derive(Clone, Copy, Debug, PartialEq, Eq, Structural)]
pub enum BoneType {
    Ground,
    Hips,
    SpineLower,
    SpineMiddle,
    SpineUpper,
    Neck,
    Head,
    CollarLeft,
    ShoulderLeft,
    ElbowLeft,
    HandLeft,
    ThumbLeft0,
    ThumbLeft1,
    ThumbLeft2,
    IndexLeft0,
    IndexLeft1,
    IndexLeft2,
    MiddleLeft0,
    MiddleLeft1,
    MiddleLeft2,
    RingLeft0,
    RingLeft1,
    RingLeft2,
    PinkyLeft0,
    PinkyLeft1,
    PinkyLeft2,
    CollarRight,
    ShoulderRight,
    ElbowRight,
    HandRight,
    ThumbRight0,
    ThumbRight1,
    ThumbRight2,
    IndexRight0,
    IndexRight1,
    IndexRight2,
    MiddleRight0,
    MiddleRight1,
    MiddleRight2,
    RingRight0,
    RingRight1,
    RingRight2,
    PinkyRight0,
    PinkyRight1,
    PinkyRight2,
    HipLeft,
    KneeLeft,
    FootLeft,
    ToeLeft,
    HipRight,
    KneeRight,
    FootRight,
    ToeRight,
    Jaw,
    EyelidLowerLeft,
    EyelidUpperLeft,
    EyeballLeft,
    MouthCornerLeft,
    EyebrowLeft0,
    EyebrowLeft1,
    EyebrowLeft2,
    EyelidLowerRight,
    EyelidUpperRight,
    EyeballRight,
    MouthCornerRight,
    EyebrowRight0,
    EyebrowRight1,
    EyebrowRight2,
    Pelvis,
}

/// Whether `a` and `b` are the same text.
pub fn same_text(a: &str, b: &str) -> (r: bool)
    ensures
        r == (a@ == b@),
{
    let n = a.unicode_len();
    if n != b.unicode_len() {
        return false;
    }
    let mut i: usize = 0;
    while i < n
        invariant
            i <= n,
            n == a@.len(),
            n == b@.len(),
            a@.take(i as int) == b@.take(i as int),
        decreases n - i,
    {
        if a.get_char(i) != b.get_char(i) {
            assert(a@[i as int] != b@[i as int]);
            return false;
        }
        i = i + 1;
        assert(a@.take(i as int) =~= a@.take(i - 1).push(a@[i - 1]));
        assert(b@.take(i as int) =~= b@.take(i - 1).push(b@[i - 1]));
    }
    assert(a@ =~= a@.take(n as int));
    assert(b@ =~= b@.take(n as int));
    true
}

/// The known bone names of the source skeletons and their slots, in order.
pub open spec fn bone_table() -> Seq<(Seq<char>, BoneType)> {
    seq![
        ("root ground"@, BoneType::Ground),
        ("root hips"@, BoneType::Hips),
        ("pelvis"@, BoneType::Pelvis),
        ("leg left thigh"@, BoneType::HipLeft),
        ("leg left knee"@, BoneType::KneeLeft),
        ("leg left ankle"@, BoneType::FootLeft),
        ("leg left toes"@, BoneType::ToeLeft),
        ("leg right thigh"@, BoneType::HipRight),
        ("leg right knee"@, BoneType::KneeRight),
        ("leg right ankle"@, BoneType::FootRight),
        ("leg right toes"@, BoneType::ToeRight),
        ("spine lower"@, BoneType::SpineLower),
        ("spine middle"@, BoneType::SpineMiddle),
        ("spine upper"@, BoneType::SpineUpper),
        ("head neck lower"@, BoneType::Neck),
        ("head neck upper"@, BoneType::Head),
        ("head jaw"@, BoneType::Jaw),
        ("head eyeball left"@, BoneType::EyeballLeft),
        ("head eyeball right"@, BoneType::EyeballRight),
        ("head eyelid upper right"@, BoneType::EyelidUpperRight),
        ("head eyelid lower right"@, BoneType::EyelidLowerRight),
        ("head eyelid upper left"@, BoneType::EyelidUpperLeft),
        ("head eyelid lower left"@, BoneType::EyelidLowerLeft),
        ("head eyelid right upper"@, BoneType::EyelidUpperRight),
        ("head eyelid right lower"@, BoneType::EyelidLowerRight),
        ("head eyelid left upper"@, BoneType::EyelidUpperLeft),
        ("head eyelid left lower"@, BoneType::EyelidLowerLeft),
        ("head eyebrow right a"@, BoneType::EyebrowRight0),
        ("head eyebrow right b"@, BoneType::EyebrowRight1),
        ("head eyebrow right c"@, BoneType::EyebrowRight2),
        ("head eyebrow left a"@, BoneType::EyebrowLeft0),
        ("head eyebrow left b"@, BoneType::EyebrowLeft1),
        ("head eyebrow left c"@, BoneType::EyebrowLeft2),
        ("head eyebrow right 1"@, BoneType::EyebrowRight0),
        ("head eyebrow right 2"@, BoneType::EyebrowRight1),
        ("head eyebrow right 3"@, BoneType::EyebrowRight2),
        ("head eyebrow left 1"@, BoneType::EyebrowLeft0),
        ("head eyebrow left 2"@, BoneType::EyebrowLeft1),
        ("head eyebrow left 3"@, BoneType::EyebrowLeft2),
        ("head mouth corner right"@, BoneType::MouthCornerRight),
        ("head mouth corner left"@, BoneType::MouthCornerLeft),
        ("arm left shoulder 1"@, BoneType::CollarLeft),
        ("arm left shoulder 2"@, BoneType::ShoulderLeft),
        ("arm left shoulder a"@, BoneType::CollarLeft),
        ("arm left shoulder b"@, BoneType::ShoulderLeft),
        ("arm left elbow"@, BoneType::ElbowLeft),
        ("arm left wrist"@, BoneType::HandLeft),
        ("arm left wirst"@, BoneType::HandLeft),
        ("arm left finger 1a"@, BoneType::ThumbLeft0),
        ("arm left finger 1b"@, BoneType::ThumbLeft1),
        ("arm left finger 1c"@, BoneType::ThumbLeft2),
        ("arm left finger 2a"@, BoneType::IndexLeft0),
        ("arm left finger 2b"@, BoneType::IndexLeft1),
        ("arm left finger 2c"@, BoneType::IndexLeft2),
        ("arm left finger 3a"@, BoneType::MiddleLeft0),
        ("arm left finger 3b"@, BoneType::MiddleLeft1),
        ("arm left finger 3c"@, BoneType::MiddleLeft2),
        ("arm left finger 4a"@, BoneType::RingLeft0),
        ("arm left finger 4b"@, BoneType::RingLeft1),
        ("arm left finger 4c"@, BoneType::RingLeft2),
        ("arm left finger 5a"@, BoneType::PinkyLeft0),
        ("arm left finger 5b"@, BoneType::PinkyLeft1),
        ("arm left finger 5c"@, BoneType::PinkyLeft2),
        ("arm right shoulder 1"@, BoneType::CollarRight),
        ("arm right shoulder 2"@, BoneType::ShoulderRight),
        ("arm right shoulder a"@, BoneType::CollarRight),
        ("arm right shoulder b"@, BoneType::ShoulderRight),
        ("arm right elbow"@, BoneType::ElbowRight),
        ("arm right wrist"@, BoneType::HandRight),
        ("arm right wirst"@, BoneType::HandRight),
        ("arm right finger 1a"@, BoneType::ThumbRight0),
        ("arm right finger 1b"@, BoneType::ThumbRight1),
        ("arm right finger 1c"@, BoneType::ThumbRight2),
        ("arm right finger 2a"@, BoneType::IndexRight0),
        ("arm right finger 2b"@, BoneType::IndexRight1),
        ("arm right finger 2c"@, BoneType::IndexRight2),
        ("arm right finger 3a"@, BoneType::MiddleRight0),
        ("arm right finger 3b"@, BoneType::MiddleRight1),
        ("arm right finger 3c"@, BoneType::MiddleRight2),
        ("arm right finger 4a"@, BoneType::RingRight0),
        ("arm right finger 4b"@, BoneType::RingRight1),
        ("arm right finger 4c"@, BoneType::RingRight2),
        ("arm right finger 5a"@, BoneType::PinkyRight0),
        ("arm right finger 5b"@, BoneType::PinkyRight1),
        ("arm right finger 5c"@, BoneType::PinkyRight2),
        ("mixamorig_Hips"@, BoneType::Hips),
        ("mixamorig_Spine"@, BoneType::SpineLower),
        ("mixamorig_Spine1"@, BoneType::SpineMiddle),
        ("mixamorig_Spine2"@, BoneType::SpineUpper),
        ("mixamorig_Neck"@, BoneType::Neck),
        ("mixamorig_Head"@, BoneType::Head),
        ("mixamorig_LeftShoulder"@, BoneType::CollarLeft),
        ("mixamorig_LeftArm"@, BoneType::ShoulderLeft),
        ("mixamorig_LeftForeArm"@, BoneType::ElbowLeft),
        ("mixamorig_LeftHand"@, BoneType::HandLeft),
        ("mixamorig_LeftHandThumb1"@, BoneType::ThumbLeft0),
        ("mixamorig_LeftHandThumb2"@, BoneType::ThumbLeft1),
        ("mixamorig_LeftHandThumb3"@, BoneType::ThumbLeft2),
        ("mixamorig_LeftHandIndex1"@, BoneType::IndexLeft0),
        ("mixamorig_LeftHandIndex2"@, BoneType::IndexLeft1),
        ("mixamorig_LeftHandIndex3"@, BoneType::IndexLeft2),
        ("mixamorig_LeftHandMiddle1"@, BoneType::MiddleLeft0),
        ("mixamorig_LeftHandMiddle2"@, BoneType::MiddleLeft1),
        ("mixamorig_LeftHandMiddle3"@, BoneType::MiddleLeft2),
        ("mixamorig_LeftHandRing1"@, BoneType::RingLeft0),
        ("mixamorig_LeftHandRing2"@, BoneType::RingLeft1),
        ("mixamorig_LeftHandRing3"@, BoneType::RingLeft2),
        ("mixamorig_LeftHandPinky1"@, BoneType::PinkyLeft0),
        ("mixamorig_LeftHandPinky2"@, BoneType::PinkyLeft1),
        ("mixamorig_LeftHandPinky3"@, BoneType::PinkyLeft2),
        ("mixamorig_RightShoulder"@, BoneType::CollarRight),
        ("mixamorig_RightArm"@, BoneType::ShoulderRight),
        ("mixamorig_RightForeArm"@, BoneType::ElbowRight),
        ("mixamorig_RightHand"@, BoneType::HandRight),
        ("mixamorig_RightHandThumb1"@, BoneType::ThumbRight0),
        ("mixamorig_RightHandThumb2"@, BoneType::ThumbRight1),
        ("mixamorig_RightHandThumb3"@, BoneType::ThumbRight2),
        ("mixamorig_RightHandIndex1"@, BoneType::IndexRight0),
        ("mixamorig_RightHandIndex2"@, BoneType::IndexRight1),
        ("mixamorig_RightHandIndex3"@, BoneType::IndexRight2),
        ("mixamorig_RightHandMiddle1"@, BoneType::MiddleRight0),
        ("mixamorig_RightHandMiddle2"@, BoneType::MiddleRight1),
        ("mixamorig_RightHandMiddle3"@, BoneType::MiddleRight2),
        ("mixamorig_RightHandRing1"@, BoneType::RingRight0),
        ("mixamorig_RightHandRing2"@, BoneType::RingRight1),
        ("mixamorig_RightHandRing3"@, BoneType::RingRight2),
        ("mixamorig_RightHandPinky1"@, BoneType::PinkyRight0),
        ("mixamorig_RightHandPinky2"@, BoneType::PinkyRight1),
        ("mixamorig_RightHandPinky3"@, BoneType::PinkyRight2),
        ("mixamorig_LeftUpLeg"@, BoneType::HipLeft),
        ("mixamorig_LeftLeg"@, BoneType::KneeLeft),
        ("mixamorig_LeftFoot"@, BoneType::FootLeft),
        ("mixamorig_LeftToeBase"@, BoneType::ToeLeft),
        ("mixamorig_RightUpLeg"@, BoneType::HipRight),
        ("mixamorig_RightLeg"@, BoneType::KneeRight),
        ("mixamorig_RightFoot"@, BoneType::FootRight),
        ("mixamorig_RightToeBase"@, BoneType::ToeRight),
        ("Genesis"@, BoneType::Ground),
        ("hip"@, BoneType::Hips),
        ("lThigh"@, BoneType::HipLeft),
        ("lShin"@, BoneType::KneeLeft),
        ("lFoot"@, BoneType::FootLeft),
        ("lToe"@, BoneType::ToeLeft),
        ("rThigh"@, BoneType::HipRight),
        ("rShin"@, BoneType::KneeRight),
        ("rFoot"@, BoneType::FootRight),
        ("rToe"@, BoneType::ToeRight),
        ("abdomen"@, BoneType::SpineLower),
        ("abdomen2"@, BoneType::SpineMiddle),
        ("chest"@, BoneType::SpineUpper),
        ("neck"@, BoneType::Neck),
        ("head"@, BoneType::Head),
        ("rEye"@, BoneType::EyeballRight),
        ("lEye"@, BoneType::EyeballRight),
        ("upperJaw"@, BoneType::Jaw),
        ("rCollar"@, BoneType::CollarRight),
        ("rShldr"@, BoneType::ShoulderRight),
        ("rForeArm"@, BoneType::ElbowRight),
        ("rHand"@, BoneType::HandRight),
        ("rThumb1"@, BoneType::ThumbRight0),
        ("rThumb2"@, BoneType::ThumbRight1),
        ("rThumb3"@, BoneType::ThumbRight2),
        ("rIndex1"@, BoneType::IndexRight0),
        ("rIndex2"@, BoneType::IndexRight1),
        ("rIndex3"@, BoneType::IndexRight2),
        ("rMid1"@, BoneType::MiddleRight0),
        ("rMid2"@, BoneType::MiddleRight1),
        ("rMid3"@, BoneType::MiddleRight2),
        ("rRing1"@, BoneType::RingRight0),
        ("rRing2"@, BoneType::RingRight1),
        ("rRing3"@, BoneType::RingRight2),
        ("rPinky1"@, BoneType::PinkyRight0),
        ("rPinky2"@, BoneType::PinkyRight1),
        ("rPinky3"@, BoneType::PinkyRight2),
        ("lCollar"@, BoneType::CollarLeft),
        ("lShldr"@, BoneType::ShoulderLeft),
        ("lForeArm"@, BoneType::ElbowLeft),
        ("lHand"@, BoneType::HandLeft),
        ("lThumb1"@, BoneType::ThumbLeft0),
        ("lThumb2"@, BoneType::ThumbLeft1),
        ("lThumb3"@, BoneType::ThumbLeft2),
        ("lIndex1"@, BoneType::IndexLeft0),
        ("lIndex2"@, BoneType::IndexLeft1),
        ("lIndex3"@, BoneType::IndexLeft2),
        ("lMid1"@, BoneType::MiddleLeft0),
        ("lMid2"@, BoneType::MiddleLeft1),
        ("lMid3"@, BoneType::MiddleLeft2),
        ("lRing1"@, BoneType::RingLeft0),
        ("lRing2"@, BoneType::RingLeft1),
        ("lRing3"@, BoneType::RingLeft2),
        ("lPinky1"@, BoneType::PinkyLeft0),
        ("lPinky2"@, BoneType::PinkyLeft1),
        ("lPinky3"@, BoneType::PinkyLeft2),
        ("rShldrBend"@, BoneType::ShoulderRight),
        ("rForearmBend"@, BoneType::ElbowRight),
        ("rThighBend"@, BoneType::HipRight),
        ("lShldrBend"@, BoneType::ShoulderLeft),
        ("lForearmBend"@, BoneType::ElbowLeft),
        ("lThighBend"@, BoneType::HipLeft),
        ("abdomenLower"@, BoneType::SpineLower),
        ("abdomenUpper"@, BoneType::SpineMiddle),
        ("chestLower"@, BoneType::SpineUpper),
        ("neckLower"@, BoneType::Neck),
        ("Hips"@, BoneType::Hips),
        ("Chest"@, BoneType::SpineLower),
        ("Chest2"@, BoneType::SpineMiddle),
        ("Chest3"@, BoneType::SpineUpper),
        ("Neck"@, BoneType::Neck),
        ("Head"@, BoneType::Head),
        ("LeftCollar"@, BoneType::CollarLeft),
        ("LeftShoulder"@, BoneType::ShoulderLeft),
        ("LeftElbow"@, BoneType::ElbowLeft),
        ("LeftHand"@, BoneType::HandLeft),
        ("LeftFinger0"@, BoneType::ThumbLeft0),
        ("LeftFinger01"@, BoneType::ThumbLeft1),
        ("LeftFinger1"@, BoneType::IndexLeft0),
        ("LeftFinger11"@, BoneType::IndexLeft1),
        ("RightCollar"@, BoneType::CollarRight),
        ("RightShoulder"@, BoneType::ShoulderRight),
        ("RightElbow"@, BoneType::ElbowRight),
        ("RightHand"@, BoneType::HandRight),
        ("RightFinger0"@, BoneType::ThumbRight0),
        ("RightFinger01"@, BoneType::ThumbRight1),
        ("RightFinger1"@, BoneType::IndexRight0),
        ("RightFinger11"@, BoneType::IndexRight1),
        ("LeftHip"@, BoneType::HipLeft),
        ("LeftKnee"@, BoneType::KneeLeft),
        ("LeftAnkle"@, BoneType::FootLeft),
        ("LeftToe"@, BoneType::ToeLeft),
        ("RightHip"@, BoneType::HipRight),
        ("RightKnee"@, BoneType::KneeRight),
        ("RightAnkle"@, BoneType::FootRight),
        ("RightToe"@, BoneType::ToeRight),
    ]
}

/// The slot of the first entry of `tab` named `name`, if any.
pub open spec fn table_lookup(tab: Seq<(Seq<char>, BoneType)>, name: Seq<char>) -> Option<BoneType>
    decreases tab.len(),
{
    if tab.len() == 0 {
        None
    } else if tab[0].0 == name {
        Some(tab[0].1)
    } else {
        table_lookup(tab.drop_first(), name)
    }
}

/// The slot that a bone name stands for, if the table knows it.
pub open spec fn mecanim_type(name: Seq<char>) -> Option<BoneType> {
    table_lookup(bone_table(), name)
}

/// The Mecanim slot name of a skeleton slot; `default` for slots that have none.
pub open spec fn mecanim_name(bone_type: BoneType) -> Seq<char> {
    match bone_type {
            BoneType::Hips => "Hips"@,
            BoneType::HipLeft => "LeftUpperLeg"@,
            BoneType::KneeLeft => "LeftLowerLeg"@,
            BoneType::FootLeft => "LeftFoot"@,
            BoneType::ToeLeft => "LeftToes"@,
            BoneType::HipRight => "RightUpperLeg"@,
            BoneType::KneeRight => "RightLowerLeg"@,
            BoneType::FootRight => "RightFoot"@,
            BoneType::ToeRight => "RightToes"@,
            BoneType::SpineLower => "Spine"@,
            BoneType::SpineMiddle => "Chest"@,
            BoneType::SpineUpper => "UpperChest"@,
            BoneType::Neck => "Neck"@,
            BoneType::Head => "Head"@,
            BoneType::Jaw => "Jaw"@,
            BoneType::EyeballLeft => "LeftEye"@,
            BoneType::EyeballRight => "RightEye"@,
            BoneType::CollarLeft => "LeftShoulder"@,
            BoneType::ShoulderLeft => "LeftUpperArm"@,
            BoneType::ElbowLeft => "LeftLowerArm"@,
            BoneType::HandLeft => "LeftHand"@,
            BoneType::ThumbLeft0 => "Left Thumb Proximal"@,
            BoneType::ThumbLeft1 => "Left Thumb Intermediate"@,
            BoneType::ThumbLeft2 => "Left Thumb Distal"@,
            BoneType::IndexLeft0 => "Left Index Proximal"@,
            BoneType::IndexLeft1 => "Left Index Intermediate"@,
            BoneType::IndexLeft2 => "Left Index Distal"@,
            BoneType::MiddleLeft0 => "Left Middle Proximal"@,
            BoneType::MiddleLeft1 => "Left Middle Intermediate"@,
            BoneType::MiddleLeft2 => "Left Middle Distal"@,
            BoneType::RingLeft0 => "Left Ring Proximal"@,
            BoneType::RingLeft1 => "Left Ring Intermediate"@,
            BoneType::RingLeft2 => "Left Ring Distal"@,
            BoneType::PinkyLeft0 => "Left Little Proximal"@,
            BoneType::PinkyLeft1 => "Left Little Intermediate"@,
            BoneType::PinkyLeft2 => "Left Little Distal"@,
            BoneType::CollarRight => "RightShoulder"@,
            BoneType::ShoulderRight => "RightUpperArm"@,
            BoneType::ElbowRight => "RightLowerArm"@,
            BoneType::HandRight => "RightHand"@,
            BoneType::ThumbRight0 => "Right Thumb Proximal"@,
            BoneType::ThumbRight1 => "Right Thumb Intermediate"@,
            BoneType::ThumbRight2 => "Right Thumb Distal"@,
            BoneType::IndexRight0 => "Right Index Proximal"@,
            BoneType::IndexRight1 => "Right Index Intermediate"@,
            BoneType::IndexRight2 => "Right Index Distal"@,
            BoneType::MiddleRight0 => "Right Middle Proximal"@,
            BoneType::MiddleRight1 => "Right Middle Intermediate"@,
            BoneType::MiddleRight2 => "Right Middle Distal"@,
            BoneType::RingRight0 => "Right Ring Proximal"@,
            BoneType::RingRight1 => "Right Ring Intermediate"@,
            BoneType::RingRight2 => "Right Ring Distal"@,
            BoneType::PinkyRight0 => "Right Little Proximal"@,
            BoneType::PinkyRight1 => "Right Little Intermediate"@,
            BoneType::PinkyRight2 => "Right Little Distal"@,
        _ => "default"@,
    }
}

/// The name a bone gets under Mecanim naming: its slot's name when the table
/// knows it, the name itself otherwise.
pub open spec fn mecanim_renamed(name: Seq<char>) -> Seq<char> {
    match mecanim_type(name) {
        Some(t) => mecanim_name(t),
        None => name,
    }
}

pub open spec fn table_view(v: Seq<(&'static str, BoneType)>) -> Seq<(Seq<char>, BoneType)> {
    v.map_values(|e: (&'static str, BoneType)| (e.0@, e.1))
}

/// The table from the bone names of the source skeletons to skeleton slots.
pub struct Converter {
    pub bone_dictionary: Vec<(&'static str, BoneType)>,
}

impl Converter {
    /// The table of known bone names.
    pub fn new() -> (r: Converter)
        ensures
            table_view(r.bone_dictionary@) == bone_table(),
    {
        let bone_dictionary = vec![
            ("root ground", BoneType::Ground),
            ("root hips", BoneType::Hips),
            ("pelvis", BoneType::Pelvis),
            ("leg left thigh", BoneType::HipLeft),
            ("leg left knee", BoneType::KneeLeft),
            ("leg left ankle", BoneType::FootLeft),
            ("leg left toes", BoneType::ToeLeft),
            ("leg right thigh", BoneType::HipRight),
            ("leg right knee", BoneType::KneeRight),
            ("leg right ankle", BoneType::FootRight),
            ("leg right toes", BoneType::ToeRight),
            ("spine lower", BoneType::SpineLower),
            ("spine middle", BoneType::SpineMiddle),
            ("spine upper", BoneType::SpineUpper),
            ("head neck lower", BoneType::Neck),
            ("head neck upper", BoneType::Head),
            ("head jaw", BoneType::Jaw),
            ("head eyeball left", BoneType::EyeballLeft),
            ("head eyeball right", BoneType::EyeballRight),
            ("head eyelid upper right", BoneType::EyelidUpperRight),
            ("head eyelid lower right", BoneType::EyelidLowerRight),
            ("head eyelid upper left", BoneType::EyelidUpperLeft),
            ("head eyelid lower left", BoneType::EyelidLowerLeft),
            ("head eyelid right upper", BoneType::EyelidUpperRight),
            ("head eyelid right lower", BoneType::EyelidLowerRight),
            ("head eyelid left upper", BoneType::EyelidUpperLeft),
            ("head eyelid left lower", BoneType::EyelidLowerLeft),
            ("head eyebrow right a", BoneType::EyebrowRight0),
            ("head eyebrow right b", BoneType::EyebrowRight1),
            ("head eyebrow right c", BoneType::EyebrowRight2),
            ("head eyebrow left a", BoneType::EyebrowLeft0),
            ("head eyebrow left b", BoneType::EyebrowLeft1),
            ("head eyebrow left c", BoneType::EyebrowLeft2),
            ("head eyebrow right 1", BoneType::EyebrowRight0),
            ("head eyebrow right 2", BoneType::EyebrowRight1),
            ("head eyebrow right 3", BoneType::EyebrowRight2),
            ("head eyebrow left 1", BoneType::EyebrowLeft0),
            ("head eyebrow left 2", BoneType::EyebrowLeft1),
            ("head eyebrow left 3", BoneType::EyebrowLeft2),
            ("head mouth corner right", BoneType::MouthCornerRight),
            ("head mouth corner left", BoneType::MouthCornerLeft),
            ("arm left shoulder 1", BoneType::CollarLeft),
            ("arm left shoulder 2", BoneType::ShoulderLeft),
            ("arm left shoulder a", BoneType::CollarLeft),
            ("arm left shoulder b", BoneType::ShoulderLeft),
            ("arm left elbow", BoneType::ElbowLeft),
            ("arm left wrist", BoneType::HandLeft),
            ("arm left wirst", BoneType::HandLeft),
            ("arm left finger 1a", BoneType::ThumbLeft0),
            ("arm left finger 1b", BoneType::ThumbLeft1),
            ("arm left finger 1c", BoneType::ThumbLeft2),
            ("arm left finger 2a", BoneType::IndexLeft0),
            ("arm left finger 2b", BoneType::IndexLeft1),
            ("arm left finger 2c", BoneType::IndexLeft2),
            ("arm left finger 3a", BoneType::MiddleLeft0),
            ("arm left finger 3b", BoneType::MiddleLeft1),
            ("arm left finger 3c", BoneType::MiddleLeft2),
            ("arm left finger 4a", BoneType::RingLeft0),
            ("arm left finger 4b", BoneType::RingLeft1),
            ("arm left finger 4c", BoneType::RingLeft2),
            ("arm left finger 5a", BoneType::PinkyLeft0),
            ("arm left finger 5b", BoneType::PinkyLeft1),
            ("arm left finger 5c", BoneType::PinkyLeft2),
            ("arm right shoulder 1", BoneType::CollarRight),
            ("arm right shoulder 2", BoneType::ShoulderRight),
            ("arm right shoulder a", BoneType::CollarRight),
            ("arm right shoulder b", BoneType::ShoulderRight),
            ("arm right elbow", BoneType::ElbowRight),
            ("arm right wrist", BoneType::HandRight),
            ("arm right wirst", BoneType::HandRight),
            ("arm right finger 1a", BoneType::ThumbRight0),
            ("arm right finger 1b", BoneType::ThumbRight1),
            ("arm right finger 1c", BoneType::ThumbRight2),
            ("arm right finger 2a", BoneType::IndexRight0),
            ("arm right finger 2b", BoneType::IndexRight1),
            ("arm right finger 2c", BoneType::IndexRight2),
            ("arm right finger 3a", BoneType::MiddleRight0),
            ("arm right finger 3b", BoneType::MiddleRight1),
            ("arm right finger 3c", BoneType::MiddleRight2),
            ("arm right finger 4a", BoneType::RingRight0),
            ("arm right finger 4b", BoneType::RingRight1),
            ("arm right finger 4c", BoneType::RingRight2),
            ("arm right finger 5a", BoneType::PinkyRight0),
            ("arm right finger 5b", BoneType::PinkyRight1),
            ("arm right finger 5c", BoneType::PinkyRight2),
            ("mixamorig_Hips", BoneType::Hips),
            ("mixamorig_Spine", BoneType::SpineLower),
            ("mixamorig_Spine1", BoneType::SpineMiddle),
            ("mixamorig_Spine2", BoneType::SpineUpper),
            ("mixamorig_Neck", BoneType::Neck),
            ("mixamorig_Head", BoneType::Head),
            ("mixamorig_LeftShoulder", BoneType::CollarLeft),
            ("mixamorig_LeftArm", BoneType::ShoulderLeft),
            ("mixamorig_LeftForeArm", BoneType::ElbowLeft),
            ("mixamorig_LeftHand", BoneType::HandLeft),
            ("mixamorig_LeftHandThumb1", BoneType::ThumbLeft0),
            ("mixamorig_LeftHandThumb2", BoneType::ThumbLeft1),
            ("mixamorig_LeftHandThumb3", BoneType::ThumbLeft2),
            ("mixamorig_LeftHandIndex1", BoneType::IndexLeft0),
            ("mixamorig_LeftHandIndex2", BoneType::IndexLeft1),
            ("mixamorig_LeftHandIndex3", BoneType::IndexLeft2),
            ("mixamorig_LeftHandMiddle1", BoneType::MiddleLeft0),
            ("mixamorig_LeftHandMiddle2", BoneType::MiddleLeft1),
            ("mixamorig_LeftHandMiddle3", BoneType::MiddleLeft2),
            ("mixamorig_LeftHandRing1", BoneType::RingLeft0),
            ("mixamorig_LeftHandRing2", BoneType::RingLeft1),
            ("mixamorig_LeftHandRing3", BoneType::RingLeft2),
            ("mixamorig_LeftHandPinky1", BoneType::PinkyLeft0),
            ("mixamorig_LeftHandPinky2", BoneType::PinkyLeft1),
            ("mixamorig_LeftHandPinky3", BoneType::PinkyLeft2),
            ("mixamorig_RightShoulder", BoneType::CollarRight),
            ("mixamorig_RightArm", BoneType::ShoulderRight),
            ("mixamorig_RightForeArm", BoneType::ElbowRight),
            ("mixamorig_RightHand", BoneType::HandRight),
            ("mixamorig_RightHandThumb1", BoneType::ThumbRight0),
            ("mixamorig_RightHandThumb2", BoneType::ThumbRight1),
            ("mixamorig_RightHandThumb3", BoneType::ThumbRight2),
            ("mixamorig_RightHandIndex1", BoneType::IndexRight0),
            ("mixamorig_RightHandIndex2", BoneType::IndexRight1),
            ("mixamorig_RightHandIndex3", BoneType::IndexRight2),
            ("mixamorig_RightHandMiddle1", BoneType::MiddleRight0),
            ("mixamorig_RightHandMiddle2", BoneType::MiddleRight1),
            ("mixamorig_RightHandMiddle3", BoneType::MiddleRight2),
            ("mixamorig_RightHandRing1", BoneType::RingRight0),
            ("mixamorig_RightHandRing2", BoneType::RingRight1),
            ("mixamorig_RightHandRing3", BoneType::RingRight2),
            ("mixamorig_RightHandPinky1", BoneType::PinkyRight0),
            ("mixamorig_RightHandPinky2", BoneType::PinkyRight1),
            ("mixamorig_RightHandPinky3", BoneType::PinkyRight2),
            ("mixamorig_LeftUpLeg", BoneType::HipLeft),
            ("mixamorig_LeftLeg", BoneType::KneeLeft),
            ("mixamorig_LeftFoot", BoneType::FootLeft),
            ("mixamorig_LeftToeBase", BoneType::ToeLeft),
            ("mixamorig_RightUpLeg", BoneType::HipRight),
            ("mixamorig_RightLeg", BoneType::KneeRight),
            ("mixamorig_RightFoot", BoneType::FootRight),
            ("mixamorig_RightToeBase", BoneType::ToeRight),
            ("Genesis", BoneType::Ground),
            ("hip", BoneType::Hips),
            ("lThigh", BoneType::HipLeft),
            ("lShin", BoneType::KneeLeft),
            ("lFoot", BoneType::FootLeft),
            ("lToe", BoneType::ToeLeft),
            ("rThigh", BoneType::HipRight),
            ("rShin", BoneType::KneeRight),
            ("rFoot", BoneType::FootRight),
            ("rToe", BoneType::ToeRight),
            ("abdomen", BoneType::SpineLower),
            ("abdomen2", BoneType::SpineMiddle),
            ("chest", BoneType::SpineUpper),
            ("neck", BoneType::Neck),
            ("head", BoneType::Head),
            ("rEye", BoneType::EyeballRight),
            ("lEye", BoneType::EyeballRight),
            ("upperJaw", BoneType::Jaw),
            ("rCollar", BoneType::CollarRight),
            ("rShldr", BoneType::ShoulderRight),
            ("rForeArm", BoneType::ElbowRight),
            ("rHand", BoneType::HandRight),
            ("rThumb1", BoneType::ThumbRight0),
            ("rThumb2", BoneType::ThumbRight1),
            ("rThumb3", BoneType::ThumbRight2),
            ("rIndex1", BoneType::IndexRight0),
            ("rIndex2", BoneType::IndexRight1),
            ("rIndex3", BoneType::IndexRight2),
            ("rMid1", BoneType::MiddleRight0),
            ("rMid2", BoneType::MiddleRight1),
            ("rMid3", BoneType::MiddleRight2),
            ("rRing1", BoneType::RingRight0),
            ("rRing2", BoneType::RingRight1),
            ("rRing3", BoneType::RingRight2),
            ("rPinky1", BoneType::PinkyRight0),
            ("rPinky2", BoneType::PinkyRight1),
            ("rPinky3", BoneType::PinkyRight2),
            ("lCollar", BoneType::CollarLeft),
            ("lShldr", BoneType::ShoulderLeft),
            ("lForeArm", BoneType::ElbowLeft),
            ("lHand", BoneType::HandLeft),
            ("lThumb1", BoneType::ThumbLeft0),
            ("lThumb2", BoneType::ThumbLeft1),
            ("lThumb3", BoneType::ThumbLeft2),
            ("lIndex1", BoneType::IndexLeft0),
            ("lIndex2", BoneType::IndexLeft1),
            ("lIndex3", BoneType::IndexLeft2),
            ("lMid1", BoneType::MiddleLeft0),
            ("lMid2", BoneType::MiddleLeft1),
            ("lMid3", BoneType::MiddleLeft2),
            ("lRing1", BoneType::RingLeft0),
            ("lRing2", BoneType::RingLeft1),
            ("lRing3", BoneType::RingLeft2),
            ("lPinky1", BoneType::PinkyLeft0),
            ("lPinky2", BoneType::PinkyLeft1),
            ("lPinky3", BoneType::PinkyLeft2),
            ("rShldrBend", BoneType::ShoulderRight),
            ("rForearmBend", BoneType::ElbowRight),
            ("rThighBend", BoneType::HipRight),
            ("lShldrBend", BoneType::ShoulderLeft),
            ("lForearmBend", BoneType::ElbowLeft),
            ("lThighBend", BoneType::HipLeft),
            ("abdomenLower", BoneType::SpineLower),
            ("abdomenUpper", BoneType::SpineMiddle),
            ("chestLower", BoneType::SpineUpper),
            ("neckLower", BoneType::Neck),
            ("Hips", BoneType::Hips),
            ("Chest", BoneType::SpineLower),
            ("Chest2", BoneType::SpineMiddle),
            ("Chest3", BoneType::SpineUpper),
            ("Neck", BoneType::Neck),
            ("Head", BoneType::Head),
            ("LeftCollar", BoneType::CollarLeft),
            ("LeftShoulder", BoneType::ShoulderLeft),
            ("LeftElbow", BoneType::ElbowLeft),
            ("LeftHand", BoneType::HandLeft),
            ("LeftFinger0", BoneType::ThumbLeft0),
            ("LeftFinger01", BoneType::ThumbLeft1),
            ("LeftFinger1", BoneType::IndexLeft0),
            ("LeftFinger11", BoneType::IndexLeft1),
            ("RightCollar", BoneType::CollarRight),
            ("RightShoulder", BoneType::ShoulderRight),
            ("RightElbow", BoneType::ElbowRight),
            ("RightHand", BoneType::HandRight),
            ("RightFinger0", BoneType::ThumbRight0),
            ("RightFinger01", BoneType::ThumbRight1),
            ("RightFinger1", BoneType::IndexRight0),
            ("RightFinger11", BoneType::IndexRight1),
            ("LeftHip", BoneType::HipLeft),
            ("LeftKnee", BoneType::KneeLeft),
            ("LeftAnkle", BoneType::FootLeft),
            ("LeftToe", BoneType::ToeLeft),
            ("RightHip", BoneType::HipRight),
            ("RightKnee", BoneType::KneeRight),
            ("RightAnkle", BoneType::FootRight),
            ("RightToe", BoneType::ToeRight),
        ];
        assert(table_view(bone_dictionary@) =~= bone_table());
        Converter { bone_dictionary }
    }

    /// The slot of the first entry named `name`, if any.
    pub fn get(&self, name: &str) -> (r: Option<BoneType>)
        ensures
            r == table_lookup(table_view(self.bone_dictionary@), name@),
    {
        let ghost tab = table_view(self.bone_dictionary@);
        let mut i: usize = 0;
        assert(tab.skip(0) =~= tab);
        while i < self.bone_dictionary.len()
            invariant
                i <= self.bone_dictionary@.len(),
                tab == table_view(self.bone_dictionary@),
                table_lookup(tab, name@) == table_lookup(tab.skip(i as int), name@),
            decreases self.bone_dictionary@.len() - i,
        {
            let (key, t) = self.bone_dictionary[i];
            assert(tab.skip(i as int)[0] == (key@, t));
            if same_text(key, name) {
                return Some(t);
            }
            assert(tab.skip(i as int).drop_first() =~= tab.skip(i + 1));
            i = i + 1;
        }
        assert(tab.skip(i as int) =~= Seq::<(Seq<char>, BoneType)>::empty());
        None
    }
}

/// The Mecanim slot name of a skeleton slot; `default` for slots that have none.
pub fn bone_type_to_mecanim_name(bone_type: BoneType) -> (r: &'static str)
    ensures
        r@ == mecanim_name(bone_type),
{
    match bone_type {
        BoneType::Hips => "Hips",
        BoneType::HipLeft => "LeftUpperLeg",
        BoneType::KneeLeft => "LeftLowerLeg",
        BoneType::FootLeft => "LeftFoot",
        BoneType::ToeLeft => "LeftToes",
        BoneType::HipRight => "RightUpperLeg",
        BoneType::KneeRight => "RightLowerLeg",
        BoneType::FootRight => "RightFoot",
        BoneType::ToeRight => "RightToes",
        BoneType::SpineLower => "Spine",
        BoneType::SpineMiddle => "Chest",
        BoneType::SpineUpper => "UpperChest",
        BoneType::Neck => "Neck",
        BoneType::Head => "Head",
        BoneType::Jaw => "Jaw",
        BoneType::EyeballLeft => "LeftEye",
        BoneType::EyeballRight => "RightEye",
        BoneType::CollarLeft => "LeftShoulder",
        BoneType::ShoulderLeft => "LeftUpperArm",
        BoneType::ElbowLeft => "LeftLowerArm",
        BoneType::HandLeft => "LeftHand",
        BoneType::ThumbLeft0 => "Left Thumb Proximal",
        BoneType::ThumbLeft1 => "Left Thumb Intermediate",
        BoneType::ThumbLeft2 => "Left Thumb Distal",
        BoneType::IndexLeft0 => "Left Index Proximal",
        BoneType::IndexLeft1 => "Left Index Intermediate",
        BoneType::IndexLeft2 => "Left Index Distal",
        BoneType::MiddleLeft0 => "Left Middle Proximal",
        BoneType::MiddleLeft1 => "Left Middle Intermediate",
        BoneType::MiddleLeft2 => "Left Middle Distal",
        BoneType::RingLeft0 => "Left Ring Proximal",
        BoneType::RingLeft1 => "Left Ring Intermediate",
        BoneType::RingLeft2 => "Left Ring Distal",
        BoneType::PinkyLeft0 => "Left Little Proximal",
        BoneType::PinkyLeft1 => "Left Little Intermediate",
        BoneType::PinkyLeft2 => "Left Little Distal",
        BoneType::CollarRight => "RightShoulder",
        BoneType::ShoulderRight => "RightUpperArm",
        BoneType::ElbowRight => "RightLowerArm",
        BoneType::HandRight => "RightHand",
        BoneType::ThumbRight0 => "Right Thumb Proximal",
        BoneType::ThumbRight1 => "Right Thumb Intermediate",
        BoneType::ThumbRight2 => "Right Thumb Distal",
        BoneType::IndexRight0 => "Right Index Proximal",
        BoneType::IndexRight1 => "Right Index Intermediate",
        BoneType::IndexRight2 => "Right Index Distal",
        BoneType::MiddleRight0 => "Right Middle Proximal",
        BoneType::MiddleRight1 => "Right Middle Intermediate",
        BoneType::MiddleRight2 => "Right Middle Distal",
        BoneType::RingRight0 => "Right Ring Proximal",
        BoneType::RingRight1 => "Right Ring Intermediate",
        BoneType::RingRight2 => "Right Ring Distal",
        BoneType::PinkyRight0 => "Right Little Proximal",
        BoneType::PinkyRight1 => "Right Little Intermediate",
        BoneType::PinkyRight2 => "Right Little Distal",
        _ => "default",
    }
}

} // verus!
